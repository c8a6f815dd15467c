//! The hold slot: one piece kept aside, to be swapped with the falling one
//! at most once per piece.

use vstd::prelude::*;
use crate::gameplay::block::block_datas::BlockType;

verus! {

/// The hold slot.
pub struct HoldBlock {
    holding_block: BlockType,
    can_hold: bool,
}

/// What the hold slot is, as plain values.
pub struct HoldModel {
    /// The kind that is held, or the empty kind.
    pub held: BlockType,
    /// Whether a hold is permitted right now.
    pub permitted: bool,
}

/// The slot after an attempt to hold `current`: nothing changes without
/// permission; with it, `current` is kept and permission is used up.
pub open spec fn after_hold(slot: HoldModel, current: BlockType) -> HoldModel {
    if slot.permitted {
        HoldModel { held: current, permitted: false }
    } else {
        slot
    }
}

/// What an attempt to hold hands back: the kind held so far, or nothing
/// where the hold is refused.
pub open spec fn hold_result(slot: HoldModel) -> Option<BlockType> {
    if slot.permitted {
        Some(slot.held)
    } else {
        None
    }
}

/// The slot with permission restored.
pub open spec fn after_allow(slot: HoldModel) -> HoldModel {
    HoldModel { held: slot.held, permitted: true }
}

/// After one hold has succeeded, a second attempt is refused and leaves the
/// held kind as it is, until permission is restored; once it is, a hold
/// succeeds again.
pub proof fn lemma_hold_discipline(slot: HoldModel, first: BlockType, second: BlockType)
    requires
        hold_result(slot) is Some,
    ensures
        hold_result(after_hold(slot, first)) is None,
        after_hold(after_hold(slot, first), second) == after_hold(slot, first),
        after_hold(slot, first).held == first,
        hold_result(after_allow(after_hold(slot, first))) == Some(first),
{
}

impl HoldBlock {
    /// The slot as plain values.
    pub closed spec fn view(&self) -> HoldModel {
        HoldModel { held: self.holding_block, permitted: self.can_hold }
    }

    /// An empty slot, with a hold permitted.
    pub fn new() -> (slot: Self)
        ensures
            slot@ == (HoldModel { held: BlockType::Empty, permitted: true }),
    {
        HoldBlock { holding_block: BlockType::Empty, can_hold: true }
    }

    /// Puts `current_block` into the slot and hands back what was held so
    /// far. Refused, with nothing changed, until `allow_hold` is called
    /// after the last successful hold.
    pub fn hold(&mut self, current_block: BlockType) -> (previous: Option<BlockType>)
        ensures
            previous == hold_result(old(self)@),
            final(self)@ == after_hold(old(self)@, current_block),
    {
        if !self.can_hold {
            return None;
        }
        self.can_hold = false;
        let temp = self.holding_block;
        self.holding_block = current_block;
        Some(temp)
    }

    /// The kind that is held; the empty kind where the slot is empty.
    pub fn get_holding_block(&self) -> (held: BlockType)
        ensures
            held == self@.held,
    {
        self.holding_block
    }

    /// Whether a hold is permitted right now.
    pub fn can_hold(&self) -> (permitted: bool)
        ensures
            permitted == self@.permitted,
    {
        self.can_hold
    }

    /// Restores permission to hold.
    pub fn allow_hold(&mut self)
        ensures
            final(self)@ == after_allow(old(self)@),
    {
        self.can_hold = true;
    }
}

} // verus!
