//! Scoring and attack power: what a line clear is worth.

use vstd::prelude::*;
use crate::gameplay::t_spin_checker::TSpinType;

verus! {

/// Something that says how many points a line clear is worth.
pub trait ScoreCalculator: Send {
    /// The points for clearing `eraced_lines` lines with the given spin,
    /// after `combos` clears in a row.
    fn calc(&self, eraced_lines: u32, t_spin: TSpinType, combos: u32) -> u64;
}

/// Something that says how many garbage lines a line clear sends.
pub trait AttackPowerCalculator: Send {
    /// The garbage lines sent for clearing `eraced_lines` lines with the
    /// given spin, as the `combo`-th clear in a row.
    fn calc(&self, eraced_lines: u32, t_spin: TSpinType, combo: u32) -> usize;
}

/// By how much a spin multiplies the points of a clear.
pub open spec fn spin_multiplier(t_spin: TSpinType) -> int {
    match t_spin {
        TSpinType::Full => 3,
        TSpinType::Mini => 2,
        TSpinType::NoSpin => 1,
    }
}

/// A hundred points per line, doubled by a mini T-spin and tripled by a
/// full one.
pub open spec fn simple_score(eraced_lines: u32, t_spin: TSpinType) -> int {
    eraced_lines * 100 * spin_multiplier(t_spin)
}

/// The plain scoring rule; it ignores combos.
pub struct SimpleScoreCalculator {}

impl SimpleScoreCalculator {
    /// The plain scoring rule.
    pub fn new() -> Self {
        SimpleScoreCalculator {  }
    }
}

impl ScoreCalculator for SimpleScoreCalculator {
    fn calc(&self, eraced_lines: u32, t_spin: TSpinType, combos: u32) -> (score: u64)
        ensures
            score == simple_score(eraced_lines, t_spin),
    {
        let multiplier: u64 = match t_spin {
            TSpinType::Full => 3,
            TSpinType::Mini => 2,
            TSpinType::NoSpin => 1,
        };
        let per_line: u64 = 100 * multiplier;
        assert(eraced_lines * per_line == simple_score(eraced_lines, t_spin)) by (nonlinear_arith)
            requires
                per_line == 100 * spin_multiplier(t_spin),
        ;
        assert(eraced_lines * per_line <= 0xffff_ffff * 300) by (nonlinear_arith)
            requires
                per_line <= 300,
                eraced_lines <= 0xffff_ffff,
        ;
        eraced_lines as u64 * per_line
    }
}

/// The plain attack rule: every cleared line is sent on; spins and combos
/// are ignored.
pub struct SimpleAttackPowerCalculator {}

impl SimpleAttackPowerCalculator {
    /// The plain attack rule.
    pub fn new() -> Self {
        SimpleAttackPowerCalculator {  }
    }
}

impl AttackPowerCalculator for SimpleAttackPowerCalculator {
    fn calc(&self, eraced_lines: u32, t_spin: TSpinType, combo: u32) -> (power: usize)
        ensures
            power == eraced_lines,
    {
        eraced_lines as usize
    }
}

} // verus!
