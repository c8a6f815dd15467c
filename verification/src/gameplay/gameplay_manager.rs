//! One player's game: the state machine that spawns a piece, lets it be
//! moved, locks it, clears lines and starts over.

use vstd::prelude::*;
use std::time::Duration;
use std::time::Instant;
use crate::gameplay::block::block_datas::{
    block_start_position, shape_of, spawn_padding, BlockType, BLOCK_START_POSITION_X,
    BLOCK_START_POSITION_Y,
};
use crate::gameplay::block::control_block::{can_stand, no_piece, spawned, ControlBlock, PieceModel};
use crate::gameplay::block::hold_block::{after_allow, HoldBlock, HoldModel};
use crate::gameplay::block::next_blocks::{at_bag_start, draws, preview, NextBlocks};
use crate::gameplay::controller::{
    capped_u32, repeat_shift, shifted_times, ComputerController, PlayController, PlayerController,
    PlayerKeyAssigns, HARD_DROP_MOVE_COUNT, HOLD_USING,
};
use crate::gameplay::field::{
    attacked, collides, count_full_rows, drop_pass, empty_cells, in_field, landing_y, lands_in_field,
    lines_cleared, locked, pushed_out, Field, FIELD_HEIGHT_WITH_OUTSIDE, FIELD_WIDTH,
};
use crate::gameplay::key_input::KeyInput;
use crate::gameplay::score_calculator::{
    AttackPowerCalculator, ScoreCalculator, SimpleAttackPowerCalculator, SimpleScoreCalculator,
};
use crate::gameplay::t_spin_checker::{covers_3x3, t_spin_class, TSpinChecker, TSpinType};
use crate::utility::grid::Grid;
use crate::utility::vector_util::{grid_view, overlaid};

verus! {

/// Milliseconds between two rows of free fall.
pub const DEFAULT_DROP_SPEED_MS: u32 = 1000;

/// Milliseconds a piece may rest on the ground before it locks.
pub const LOCK_DOWN_TIME_MS: u128 = 500;

/// Moves a piece may make at one depth before it locks.
pub const LOCK_DOWN_COUNT_MAX: u32 = 15;

/// Lines from which on a clear counts as a big one.
pub const MAX_ERACE_LINES: u32 = 3;

/// Milliseconds for which cleared lines stay visible as gaps.
pub const ERACE_LINE_WAIT_MILLIS: u128 = 500;

/// Milliseconds after the rows have fallen before the game goes on.
pub const DROP_LINE_WAIT_MILLIS: u128 = 500;

/// Milliseconds before the next piece is spawned.
pub const BEFORE_CONTROLLING_WAIT_MILLIS: u128 = 3000;

/// Where the game stands between two pieces.
#[derive(Clone, Copy, PartialEq, Eq, Debug, Structural)]
pub enum PlayState {
    WaitStart,
    Waiting,
    StartControlling,
    Controlling,
    Dropped,
    Eracing,
    Dropping,
}

/// Who plays.
#[derive(Clone, Copy, PartialEq, Eq, Debug, Structural)]
pub enum PlayerType {
    Player1,
    Player2,
    NPC,
}

/// The counters of one game.
#[derive(Clone, Copy, PartialEq, Eq, Debug, Structural)]
pub struct GameplayStats {
    pub level: u32,
    pub erace_lines: u32,
    pub t_spin_erace_lines: u32,
    pub combos: u32,
    pub max_erace_count: u32,
}

/// One player's game as plain values.
pub struct EngineModel {
    /// The cells of the field.
    pub cells: Seq<Seq<BlockType>>,
    /// The field is marked as beyond recovery.
    pub forced_over: bool,
    /// The pieces to come, as far as they are decided.
    pub queue: Seq<BlockType>,
    /// The hold slot.
    pub slot: HoldModel,
    /// The falling piece.
    pub piece: PieceModel,
    /// The game is lost.
    pub game_over: bool,
    /// Garbage lines earned and not yet fetched.
    pub attack_power: int,
    /// Garbage lines received and not yet pushed into the field.
    pub applied_attack: int,
    /// The points.
    pub score: int,
    /// The counters.
    pub stats: GameplayStats,
    /// Where the game stands.
    pub phase: PlayState,
    /// When the current pause began.
    pub wait_timer: int,
    /// How the last move of the piece counts.
    pub spin: TSpinType,
    /// The last lock cleared a line.
    pub combo_mode: bool,
    /// Milliseconds between two rows of free fall.
    pub drop_speed: int,
    /// Moves made at the current depth.
    pub move_counter: int,
    /// When the lock delay began.
    pub lock_down_timer: int,
    /// The lowest row the piece has reached.
    pub lowest: int,
    /// When the piece last fell a row by itself.
    pub last_drop_time: int,
    /// The shape of the T piece before its last move.
    pub recorded_shape: Seq<Seq<BlockType>>,
    /// The column of the T piece before its last move.
    pub recorded_x: int,
    /// The row of the T piece before its last move.
    pub recorded_y: int,
}

/// The time from `since` to `now`; nothing where the clock has not advanced.
pub open spec fn elapsed(now: int, since: int) -> int {
    if now >= since {
        now - since
    } else {
        0
    }
}

/// `v`, or the greatest `u64` where `v` is beyond it.
pub open spec fn capped_u64(v: int) -> int {
    if v > u64::MAX {
        u64::MAX as int
    } else {
        v
    }
}

/// `v`, or the greatest `usize` where `v` is beyond it.
pub open spec fn capped_usize(v: int) -> int {
    if v > usize::MAX {
        usize::MAX as int
    } else {
        v
    }
}

/// A game that has just begun at the given level, with `queue` to come.
pub open spec fn fresh_engine(level: u32, queue: Seq<BlockType>) -> EngineModel {
    EngineModel {
        cells: empty_cells(),
        forced_over: false,
        queue,
        slot: HoldModel { held: BlockType::Empty, permitted: true },
        piece: no_piece(),
        game_over: false,
        attack_power: 0,
        applied_attack: 0,
        score: 0,
        stats: GameplayStats { level, erace_lines: 0, t_spin_erace_lines: 0, combos: 0, max_erace_count: 0 },
        phase: PlayState::WaitStart,
        wait_timer: 0,
        spin: TSpinType::NoSpin,
        combo_mode: false,
        drop_speed: DEFAULT_DROP_SPEED_MS as int,
        move_counter: 0,
        lock_down_timer: 0,
        lowest: 0,
        last_drop_time: 0,
        recorded_shape: shape_of(BlockType::T),
        recorded_x: 0,
        recorded_y: 0,
    }
}

/// The first phase of a round: garbage that was received is pushed into the
/// field, all of it open in one column, and the wait for the next piece
/// begins.
pub open spec fn wait_started(before: EngineModel, after: EngineModel) -> bool {
    if before.applied_attack > 0 {
        exists|open_x: int|
            0 <= open_x < FIELD_WIDTH && after == #[trigger] garbage_taken(before, open_x)
    } else {
        after == (EngineModel { phase: PlayState::Waiting, ..before })
    }
}

/// The game after the garbage it received went into the field with column
/// `open_x` left open.
pub open spec fn garbage_taken(before: EngineModel, open_x: int) -> EngineModel {
    EngineModel {
        cells: attacked(before.cells, before.applied_attack, open_x),
        forced_over: before.forced_over || pushed_out(before.cells, before.applied_attack),
        applied_attack: 0,
        phase: PlayState::Waiting,
        ..before
    }
}

/// The wait before a piece is spawned: it ends once the delay has passed.
pub open spec fn waited(before: EngineModel, now: int) -> EngineModel {
    if elapsed(now, before.wait_timer) >= BEFORE_CONTROLLING_WAIT_MILLIS {
        EngineModel { phase: PlayState::StartControlling, ..before }
    } else {
        before
    }
}

/// The next piece cannot be spawned: the field is beyond recovery, or the
/// piece would collide where it is placed.
pub open spec fn spawn_blocked(before: EngineModel) -> bool {
    before.forced_over || collides(
        before.cells,
        shape_of(preview(before.queue, 0)),
        BLOCK_START_POSITION_X as int,
        BLOCK_START_POSITION_Y + spawn_padding(preview(before.queue, 0)),
    )
}

/// The spawn: where the next piece cannot be placed the game is lost and
/// nothing else changes. Else the piece is drawn and placed, the hold is
/// permitted again, and the lock delay starts afresh.
pub open spec fn control_started(before: EngineModel, after: EngineModel, now: int) -> bool {
    if spawn_blocked(before) {
        after == (EngineModel { game_over: true, ..before })
    } else {
        &&& draws(before.queue, after.queue, before.queue[0])
        &&& after == (EngineModel {
            queue: after.queue,
            slot: after_allow(before.slot),
            piece: spawned(before.queue[0], BLOCK_START_POSITION_X as int, BLOCK_START_POSITION_Y as int),
            spin: TSpinType::NoSpin,
            move_counter: 0,
            lock_down_timer: now,
            lowest: 0,
            last_drop_time: now,
            phase: PlayState::Controlling,
            ..before
        })
    }
}

/// How many rows gravity moves the piece in this frame: one for every drop
/// interval that has passed since the piece last fell by itself.
pub open spec fn auto_drop_rows(before: EngineModel, now: int) -> int {
    if before.drop_speed <= 0 {
        0
    } else {
        elapsed(now, before.last_drop_time) / before.drop_speed
    }
}

/// The game after gravity had its turn, and after the piece, if it is a T,
/// was put on record for the judging of its next move. Where the piece was
/// due to fall, the lock delay starts anew and an earlier spin is forgotten.
pub open spec fn auto_dropped(before: EngineModel, now: int) -> EngineModel {
    let rows = auto_drop_rows(before, now);
    let piece = shifted_times(before.piece, before.cells, 0, 1, rows);
    let fallen = if rows > 0 {
        EngineModel {
            piece,
            last_drop_time: now - elapsed(now, before.last_drop_time) % before.drop_speed,
            lock_down_timer: now,
            spin: TSpinType::NoSpin,
            ..before
        }
    } else {
        before
    };
    if piece.kind == BlockType::T {
        EngineModel {
            recorded_shape: overlaid(before.recorded_shape, piece.shape),
            recorded_x: piece.x,
            recorded_y: piece.y,
            ..fallen
        }
    } else {
        fallen
    }
}

/// The 3x3 window of the field that the box of a piece at `(x, y)` lies on,
/// rows from top to bottom. Cells outside the field count as taken.
pub open spec fn spin_window(cells: Seq<Seq<BlockType>>, x: int, y: int) -> Seq<Seq<BlockType>> {
    Seq::new(
        3,
        |r: int|
            Seq::new(
                3,
                |c: int|
                    if in_field(x + c, y - 2 + r) {
                        cells[y - 2 + r][x + c]
                    } else {
                        BlockType::I
                    },
            ),
    )
}

/// How the last move counts: as a T-spin of some class where the piece is a
/// T in a 3x3 box whose shape differs from the one on record, and as no
/// spin otherwise.
pub open spec fn spin_judged(m: EngineModel) -> TSpinType {
    if m.piece.kind == BlockType::T && m.recorded_shape != m.piece.shape && covers_3x3(m.piece.shape) {
        t_spin_class(
            m.piece.shape,
            spin_window(m.cells, m.piece.x, m.piece.y),
            m.piece.x - m.recorded_x,
            m.piece.y - m.recorded_y,
        )
    } else {
        TSpinType::NoSpin
    }
}

/// The bookkeeping for what the controller reported: a hold starts the lock
/// delay anew; moves are added to the move counter, restart the lock timer
/// and have the last move judged; no move changes nothing.
pub open spec fn moves_counted(m: EngineModel, signal: int, now: int) -> EngineModel {
    if signal == HOLD_USING {
        EngineModel { move_counter: 0, lock_down_timer: now, ..m }
    } else if signal > 0 {
        EngineModel {
            move_counter: capped_u32(m.move_counter + signal),
            lock_down_timer: now,
            spin: spin_judged(m),
            ..m
        }
    } else {
        m
    }
}

/// A piece that got lower than ever before earns a fresh move budget,
/// unless the move counter shows a hard drop.
pub open spec fn depth_noted(m: EngineModel) -> EngineModel {
    if m.move_counter < HARD_DROP_MOVE_COUNT && m.piece.y > m.lowest {
        EngineModel { lowest: m.piece.y, move_counter: 0, ..m }
    } else {
        m
    }
}

/// The piece is due to lock: it cannot go down, and its moves or its time
/// on the ground are used up.
pub open spec fn lock_due(m: EngineModel, now: int) -> bool {
    !can_stand(m.cells, m.piece.shape, m.piece.x, m.piece.y + 1) && (m.move_counter
        >= LOCK_DOWN_COUNT_MAX || elapsed(now, m.lock_down_timer) >= LOCK_DOWN_TIME_MS)
}

/// The game after the piece was written into the field.
pub open spec fn piece_locked(m: EngineModel) -> EngineModel {
    EngineModel {
        cells: locked(m.cells, m.piece.shape, m.piece.x, m.piece.y),
        forced_over: m.forced_over || !lands_in_field(m.piece.shape, m.piece.x, m.piece.y),
        piece: no_piece(),
        phase: PlayState::Dropped,
        ..m
    }
}

/// The end of a frame of play, given what the controller reported: the
/// moves are counted, a new depth is noted, and the piece locks if it is
/// due.
pub open spec fn control_finished(m: EngineModel, signal: int, now: int) -> EngineModel {
    let noted = depth_noted(moves_counted(m, signal, now));
    if lock_due(noted, now) {
        piece_locked(noted)
    } else {
        noted
    }
}

/// The counters after a clear of `lines` lines: the lines are added, with a
/// spin also to the lines cleared by spins; a big clear is counted; the
/// combo grows.
pub open spec fn stats_after_clear(stats: GameplayStats, lines: int, spin: TSpinType) -> GameplayStats {
    GameplayStats {
        level: stats.level,
        erace_lines: capped_u32(stats.erace_lines + lines) as u32,
        t_spin_erace_lines: if spin != TSpinType::NoSpin {
            capped_u32(stats.t_spin_erace_lines + lines) as u32
        } else {
            stats.t_spin_erace_lines
        },
        combos: capped_u32(stats.combos + 1) as u32,
        max_erace_count: if lines >= MAX_ERACE_LINES {
            capped_u32(stats.max_erace_count + 1) as u32
        } else {
            stats.max_erace_count
        },
    }
}

/// The bookkeeping for a clear of `lines` lines, worth `points` points and
/// `power` garbage lines. Without a line the combo ends and the next round
/// begins at once.
pub open spec fn lines_scored(before: EngineModel, lines: int, now: int, points: int, power: int) -> EngineModel {
    if lines > 0 {
        EngineModel {
            stats: stats_after_clear(before.stats, lines, before.spin),
            score: capped_u64(before.score + points),
            combo_mode: true,
            attack_power: power,
            phase: PlayState::Eracing,
            wait_timer: now,
            ..before
        }
    } else {
        EngineModel {
            stats: GameplayStats { combos: 0, ..before.stats },
            combo_mode: false,
            phase: PlayState::WaitStart,
            wait_timer: now,
            ..before
        }
    }
}

/// The game after the lines were cleared that the lock completed, worth
/// `points` points and `power` garbage lines.
pub open spec fn lines_counted(before: EngineModel, now: int, points: int, power: int) -> EngineModel {
    lines_scored(
        EngineModel { cells: lines_cleared(before.cells), ..before },
        count_full_rows(before.cells, FIELD_HEIGHT_WITH_OUTSIDE as int) as int,
        now,
        points,
        power,
    )
}

/// The pause that shows the cleared lines: it ends once its time has
/// passed.
pub open spec fn eraced(before: EngineModel, now: int) -> EngineModel {
    if elapsed(now, before.wait_timer) >= ERACE_LINE_WAIT_MILLIS {
        EngineModel { wait_timer: now, phase: PlayState::Dropping, ..before }
    } else {
        before
    }
}

/// The pause in which the rows fall: one pass of gravity per frame, and the
/// next round once the time has passed.
pub open spec fn rows_dropped(before: EngineModel, now: int) -> EngineModel {
    let fallen = EngineModel { cells: drop_pass(before.cells, FIELD_HEIGHT_WITH_OUTSIDE - 1), ..before };
    if elapsed(now, before.wait_timer) >= DROP_LINE_WAIT_MILLIS {
        EngineModel { wait_timer: now, phase: PlayState::WaitStart, ..fallen }
    } else {
        fallen
    }
}

/// A point on the monotonic clock of `std` (`std::time::Instant`).
#[verifier::external_type_specification]
#[verifier::external_body]
pub struct ExInstant(Instant);

/// Reads the monotonic clock with `Instant::now`.
#[verifier::external_body]
fn clock_start() -> Instant {
    Instant::now()
}

/// The time since `epoch`, as `Instant::elapsed` gives it. Nothing is
/// claimed of it.
#[verifier::external_body]
fn clock_elapsed(epoch: &Instant) -> Duration {
    epoch.elapsed()
}

/// The length of a `Duration` in whole milliseconds, as
/// `Duration::as_millis` gives it. Nothing is claimed of the number.
#[verifier::external_body]
fn duration_millis(elapsed: &Duration) -> u128 {
    elapsed.as_millis()
}

/// One player's game.
pub struct GameplayManager {
    field: Field,
    next_blocks: NextBlocks,
    hold_block: HoldBlock,
    control_block: ControlBlock,
    is_game_over: bool,
    controller: Box<dyn PlayController>,
    score_calculator: Box<dyn ScoreCalculator>,
    attack_power_calculator: Box<dyn AttackPowerCalculator>,
    attack_power: usize,
    applied_attack: usize,
    score: u64,
    stats: GameplayStats,
    state: PlayState,
    epoch: Instant,
    wait_timer: u128,
    t_spin_checker: TSpinChecker,
    t_spin_mode: TSpinType,
    combo_mode: bool,
    drop_speed: u32,
    move_counter: u32,
    lock_down_timer: u128,
    lock_down_lowest_height: i32,
    last_drop_time: u128,
}

/// The game at the end of a frame of play in which the controller left the
/// piece, the hold slot and the queue as given and reported `signal`.
pub open spec fn controlled(
    fallen: EngineModel,
    piece: PieceModel,
    slot: HoldModel,
    queue: Seq<BlockType>,
    signal: int,
    now: int,
) -> EngineModel {
    control_finished(EngineModel { piece, slot, queue, ..fallen }, signal, now)
}

/// Tells whether a matrix has three rows of at least three cells at its top.
fn check_covers_3x3(m: &Vec<Vec<BlockType>>) -> (covers: bool)
    ensures
        covers == covers_3x3(grid_view(*m)),
{
    m.len() >= 3 && m[0].len() >= 3 && m[1].len() >= 3 && m[2].len() >= 3
}

/// The time from `since` to `now`.
fn time_between(now: u128, since: u128) -> (passed: u128)
    ensures
        passed == elapsed(now as int, since as int),
{
    if now >= since {
        now - since
    } else {
        0
    }
}

impl GameplayManager {
    /// The game as plain values.
    pub closed spec fn view(&self) -> EngineModel {
        EngineModel {
            cells: self.field@,
            forced_over: self.field.forced_game_over(),
            queue: self.next_blocks.queue(),
            slot: self.hold_block@,
            piece: self.control_block@,
            game_over: self.is_game_over,
            attack_power: self.attack_power as int,
            applied_attack: self.applied_attack as int,
            score: self.score as int,
            stats: self.stats,
            phase: self.state,
            wait_timer: self.wait_timer as int,
            spin: self.t_spin_mode,
            combo_mode: self.combo_mode,
            drop_speed: self.drop_speed as int,
            move_counter: self.move_counter as int,
            lock_down_timer: self.lock_down_timer as int,
            lowest: self.lock_down_lowest_height as int,
            last_drop_time: self.last_drop_time as int,
            recorded_shape: self.t_spin_checker.recorded_shape(),
            recorded_x: self.t_spin_checker.recorded_position().x as int,
            recorded_y: self.t_spin_checker.recorded_position().y as int,
        }
    }

    /// The counts of garbage lines are counts that a `usize` can hold.
    pub proof fn lemma_attack_counts(&self)
        ensures
            0 <= self@.attack_power <= usize::MAX,
            0 <= self@.applied_attack <= usize::MAX,
    {
    }

    /// What one frame at time `now` makes of the game. A lost game stays as
    /// it is for good. Else the phase decides. In the phase of play the
    /// controller decides what becomes of the piece, the hold slot and the
    /// queue, and everything else follows from what it reports; after a
    /// lock the rules of the game decide what a clear is worth.
    pub open spec fn steps_to(&self, after: &Self, now: int) -> bool {
        let before = self@;
        if before.game_over {
            after@ == before
        } else {
            match before.phase {
                PlayState::WaitStart => wait_started(before, after@),
                PlayState::Waiting => after@ == waited(before, now),
                PlayState::StartControlling => control_started(before, after@, now),
                PlayState::Controlling => exists|
                    piece: PieceModel,
                    slot: HoldModel,
                    queue: Seq<BlockType>,
                    signal: int,
                |
                    after@ == #[trigger] controlled(
                        auto_dropped(before, now),
                        piece,
                        slot,
                        queue,
                        signal,
                        now,
                    ),
                PlayState::Dropped => exists|points: u64, power: usize|
                    after@ == #[trigger] lines_counted(before, now, points as int, power as int),
                PlayState::Eracing => after@ == eraced(before, now),
                PlayState::Dropping => after@ == rows_dropped(before, now),
            }
        }
    }

    /// Whatever a frame does, the counters of lines and the score never
    /// fall, the level stays as it is, and a game that is lost or a field
    /// that is beyond recovery stays so.
    pub proof fn lemma_frame_keeps_counters(&self, after: &Self, now: int)
        requires
            self.steps_to(after, now),
        ensures
            after@.stats.level == self@.stats.level,
            after@.stats.erace_lines >= self@.stats.erace_lines,
            after@.stats.t_spin_erace_lines >= self@.stats.t_spin_erace_lines,
            after@.stats.max_erace_count >= self@.stats.max_erace_count,
            after@.score >= self@.score,
            self@.game_over ==> after@.game_over,
            self@.forced_over ==> after@.forced_over,
    {
        let before = self@;
        if !before.game_over {
            match before.phase {
                PlayState::WaitStart => {
                    if before.applied_attack > 0 {
                        let open_x = choose|open_x: int|
                            0 <= open_x < FIELD_WIDTH && after@ == #[trigger] garbage_taken(before, open_x);
                    }
                },
                PlayState::Controlling => {
                    let (piece, slot, queue, signal) = choose|
                        piece: PieceModel,
                        slot: HoldModel,
                        queue: Seq<BlockType>,
                        signal: int,
                    |
                        after@ == #[trigger] controlled(
                            auto_dropped(before, now),
                            piece,
                            slot,
                            queue,
                            signal,
                            now,
                        );
                },
                PlayState::Dropped => {
                    let (points, power) = choose|points: u64, power: usize|
                        after@ == #[trigger] lines_counted(before, now, points as int, power as int);
                },
                _ => {},
            }
        }
    }

    /// A game for a person at the keyboard, with the keys of the first or of
    /// the second player.
    pub fn with_player_controller(level: u32, player_type: PlayerType) -> (game: Self)
        requires
            player_type != PlayerType::NPC,
        ensures
            game@ == fresh_engine(level, game@.queue),
            at_bag_start(game@.queue),
    {
        let key_assigns = match player_type {
            PlayerType::Player1 => PlayerKeyAssigns::player1_keys(),
            _ => PlayerKeyAssigns::player2_keys(),
        };
        GameplayManager::new(level, Box::new(PlayerController::new(key_assigns)))
    }

    /// A game played by the computer.
    pub fn with_npc_controller(level: u32) -> (game: Self)
        ensures
            game@ == fresh_engine(level, game@.queue),
            at_bag_start(game@.queue),
    {
        GameplayManager::new(level, Box::new(ComputerController::new()))
    }

    /// A game moved by `controller`, with the plain rules for points and
    /// attacks. Its clock starts now.
    pub fn new(level: u32, controller: Box<dyn PlayController>) -> (game: Self)
        ensures
            game@ == fresh_engine(level, game@.queue),
            at_bag_start(game@.queue),
    {
        let score_calculator: Box<dyn ScoreCalculator> = Box::new(SimpleScoreCalculator::new());
        let attack_power_calculator: Box<dyn AttackPowerCalculator> = Box::new(
            SimpleAttackPowerCalculator::new(),
        );
        GameplayManager {
            field: Field::new(),
            next_blocks: NextBlocks::new(),
            hold_block: HoldBlock::new(),
            control_block: ControlBlock::new(),
            is_game_over: false,
            controller,
            score_calculator,
            attack_power_calculator,
            attack_power: 0,
            applied_attack: 0,
            score: 0,
            stats: GameplayStats {
                erace_lines: 0,
                t_spin_erace_lines: 0,
                combos: 0,
                max_erace_count: 0,
                level,
            },
            state: PlayState::WaitStart,
            epoch: clock_start(),
            wait_timer: 0,
            t_spin_checker: TSpinChecker::new(),
            t_spin_mode: TSpinType::NoSpin,
            combo_mode: false,
            drop_speed: DEFAULT_DROP_SPEED_MS,
            move_counter: 0,
            lock_down_timer: 0,
            lock_down_lowest_height: 0,
            last_drop_time: 0,
        }
    }

    /// Plays one frame: reads the game's clock and steps the game to that
    /// time.
    pub fn update(&mut self, key_input: &dyn KeyInput)
        ensures
            exists|now: int| #[trigger] old(self).steps_to(final(self), now),
    {
        let passed = clock_elapsed(&self.epoch);
        let now = duration_millis(&passed);
        self.update_at(now, key_input);
        assert(old(self).steps_to(self, now as int));
    }

    /// Plays one frame at `now`, in milliseconds on the game's clock.
    pub fn update_at(&mut self, now: u128, key_input: &dyn KeyInput)
        ensures
            old(self).steps_to(final(self), now as int),
    {
        if self.is_game_over {
            return;
        }
        match self.state {
            PlayState::WaitStart => {
                self.step_wait_start();
            },
            PlayState::Waiting => {
                if time_between(now, self.wait_timer) >= BEFORE_CONTROLLING_WAIT_MILLIS {
                    self.state = PlayState::StartControlling;
                }
            },
            PlayState::StartControlling => {
                self.step_start_controlling(now);
            },
            PlayState::Controlling => {
                let rows = self.fall_and_record(now);
                let ghost fallen = self@;
                let signal = self.controller.control(
                    key_input,
                    &mut self.control_block,
                    &mut self.hold_block,
                    &self.field,
                    &mut self.next_blocks,
                    self.drop_speed as u128,
                    rows,
                );
                assert(self@ == (EngineModel {
                    piece: self@.piece,
                    slot: self@.slot,
                    queue: self@.queue,
                    ..fallen
                }));
                let ghost piece = self@.piece;
                let ghost slot = self@.slot;
                let ghost queue = self@.queue;
                self.finish_control(signal, now);
                assert(self@ == controlled(fallen, piece, slot, queue, signal as int, now as int));
            },
            PlayState::Dropped => {
                self.step_dropped(now);
            },
            PlayState::Eracing => {
                if time_between(now, self.wait_timer) >= ERACE_LINE_WAIT_MILLIS {
                    self.wait_timer = now;
                    self.state = PlayState::Dropping;
                }
            },
            PlayState::Dropping => {
                self.field.drop_lines();
                if time_between(now, self.wait_timer) >= DROP_LINE_WAIT_MILLIS {
                    self.wait_timer = now;
                    self.state = PlayState::WaitStart;
                }
            },
        }
    }

    /// Pushes received garbage into the field and starts the wait.
    fn step_wait_start(&mut self)
        ensures
            wait_started(old(self)@, final(self)@),
    {
        if self.applied_attack > 0 {
            let ghost before = self@;
            self.field.apply_attack(self.applied_attack);
            self.applied_attack = 0;
            self.state = PlayState::Waiting;
            proof {
                let open_x = choose|open_x: int|
                    0 <= open_x < FIELD_WIDTH && self.field@ == #[trigger] attacked(
                        before.cells,
                        before.applied_attack,
                        open_x,
                    );
                assert(self@ == garbage_taken(before, open_x));
            }
        } else {
            self.state = PlayState::Waiting;
        }
    }

    /// Spawns the next piece, or ends the game where it cannot be placed.
    fn step_start_controlling(&mut self, now: u128)
        ensures
            control_started(old(self)@, final(self)@, now as int),
    {
        let upcoming = self.next_blocks.show_next_block(0);
        if self.field.check_game_over(&upcoming) {
            self.is_game_over = true;
            return;
        }
        self.hold_block.allow_hold();
        self.t_spin_mode = TSpinType::NoSpin;
        self.move_counter = 0;
        self.lock_down_timer = now;
        self.lock_down_lowest_height = 0;
        self.last_drop_time = now;
        let piece = self.next_blocks.next();
        proof {
            crate::gameplay::block::block_datas::lemma_bottom_row_bound(shape_of(piece));
        }
        self.control_block.apply_block(piece, block_start_position());
        self.state = PlayState::Controlling;
        let held = self.hold_block.get_holding_block();
        let next_hold_block = if held == BlockType::Empty {
            self.next_blocks.show_next_block(0)
        } else {
            held
        };
        let falling = self.control_block.block_type;
        self.controller.plan(&falling, &next_hold_block, &self.field);
    }

    /// Lets gravity move the piece and puts the piece on record for the
    /// judging of its next move. Tells how many rows the piece was due to
    /// fall.
    fn fall_and_record(&mut self, now: u128) -> (rows: u32)
        ensures
            final(self)@ == auto_dropped(old(self)@, now as int),
            rows == capped_u32(auto_drop_rows(old(self)@, now as int)),
    {
        let passed = time_between(now, self.last_drop_time);
        let down_count: u128 = if self.drop_speed == 0 {
            0
        } else {
            passed / self.drop_speed as u128
        };
        let _ = repeat_shift(&mut self.control_block, &self.field, 0, 1, down_count);
        if down_count > 0 {
            let remain = passed % self.drop_speed as u128;
            proof {
                vstd::arithmetic::div_mod::lemma_mod_decreases(passed as nat, self.drop_speed as nat);
            }
            self.last_drop_time = now - remain;
            self.lock_down_timer = now;
            self.t_spin_mode = TSpinType::NoSpin;
        }
        self.t_spin_checker.set_block_data(&self.control_block);
        if down_count > u32::MAX as u128 {
            u32::MAX
        } else {
            down_count as u32
        }
    }

    /// The 3x3 window of the field around the piece, rows from top to
    /// bottom, with everything outside the field counted as taken.
    fn spin_window_cells(&self) -> (window: Vec<Vec<BlockType>>)
        ensures
            grid_view(window) == spin_window(self@.cells, self@.piece.x, self@.piece.y),
    {
        let ghost target = spin_window(self@.cells, self@.piece.x, self@.piece.y);
        let mut window: Vec<Vec<BlockType>> = Vec::new();
        let mut r: usize = 0;
        while r < 3
            invariant
                r <= 3,
                window.len() == r,
                target == spin_window(self@.cells, self@.piece.x, self@.piece.y),
                forall|i: int| 0 <= i < r ==> (#[trigger] window[i])@ == target[i],
            decreases 3 - r,
        {
            let mut row: Vec<BlockType> = Vec::new();
            let mut c: usize = 0;
            while c < 3
                invariant
                    r < 3,
                    c <= 3,
                    row.len() == c,
                    target == spin_window(self@.cells, self@.piece.x, self@.piece.y),
                    forall|j: int| 0 <= j < c ==> #[trigger] row[j] == target[r as int][j],
                decreases 3 - c,
            {
                let gx: i64 = self.control_block.position.x as i64 + c as i64;
                let gy: i64 = self.control_block.position.y as i64 - 2 + r as i64;
                let cell = if 0 <= gx && gx < FIELD_WIDTH as i64 && 0 <= gy && gy
                    < FIELD_HEIGHT_WITH_OUTSIDE as i64 {
                    self.field.get_grid_data(&Grid::new(gx as i32, gy as i32))
                } else {
                    BlockType::I
                };
                row.push(cell);
                c += 1;
            }
            assert(row@ =~= target[r as int]);
            window.push(row);
            r += 1;
        }
        assert(grid_view(window) =~= target);
        window
    }

    /// Ends a frame of play: counts what the controller reported, notes a
    /// new depth, and locks the piece if it is due.
    pub fn finish_control(&mut self, move_count: i32, now: u128)
        ensures
            final(self)@ == control_finished(old(self)@, move_count as int, now as int),
    {
        if move_count == HOLD_USING {
            self.move_counter = 0;
            self.lock_down_timer = now;
        } else if move_count > 0 {
            let spin = if self.t_spin_checker.check_t_spinned(&self.control_block) && check_covers_3x3(
                &self.control_block.block,
            ) {
                let window = self.spin_window_cells();
                self.t_spin_checker.calc_t_spin_type(&self.control_block, &window)
            } else {
                TSpinType::NoSpin
            };
            self.move_counter = self.move_counter.saturating_add(move_count as u32);
            self.lock_down_timer = now;
            self.t_spin_mode = spin;
        }
        assert(self@ == moves_counted(old(self)@, move_count as int, now as int));
        if self.move_counter < HARD_DROP_MOVE_COUNT as u32 && self.control_block.position.y
            > self.lock_down_lowest_height {
            self.lock_down_lowest_height = self.control_block.position.y;
            self.move_counter = 0;
        }
        let grounded = match self.control_block.position.y.checked_add(1) {
            Some(below) => self.field.check_collision(
                &self.control_block.block,
                &Grid::new(self.control_block.position.x, below),
            ),
            None => true,
        };
        if grounded && (self.move_counter >= LOCK_DOWN_COUNT_MAX || time_between(
            now,
            self.lock_down_timer,
        ) >= LOCK_DOWN_TIME_MS) {
            self.field.lock_block(&self.control_block.block, &self.control_block.position);
            self.control_block.delete_block();
            self.state = PlayState::Dropped;
        }
    }

    /// Clears the lines that the lock completed and asks the rules of the
    /// game what they are worth.
    fn step_dropped(&mut self, now: u128)
        ensures
            exists|points: u64, power: usize|
                final(self)@ == #[trigger] lines_counted(
                    old(self)@,
                    now as int,
                    points as int,
                    power as int,
                ),
    {
        let ghost before = self@;
        let eraced_lines = self.field.clear_lines();
        let mut points: u64 = 0;
        let mut power: usize = 0;
        if eraced_lines > 0 {
            points = self.score_calculator.calc(eraced_lines, self.t_spin_mode, self.stats.combos);
            power = self.attack_power_calculator.calc(
                eraced_lines,
                self.t_spin_mode,
                self.stats.combos.saturating_add(1),
            );
        }
        self.count_lines(eraced_lines, points, power, now);
        assert(self@ == lines_counted(before, now as int, points as int, power as int));
    }

    /// Counts a clear of `eraced_lines` lines that is worth `points` points
    /// and `power` garbage lines, and goes on to the pause that shows the
    /// gaps. Without a line the combo ends and the next round begins.
    pub fn count_lines(&mut self, eraced_lines: u32, points: u64, power: usize, now: u128)
        ensures
            final(self)@ == lines_scored(
                old(self)@,
                eraced_lines as int,
                now as int,
                points as int,
                power as int,
            ),
    {
        if eraced_lines > 0 {
            self.stats.erace_lines = self.stats.erace_lines.saturating_add(eraced_lines);
            if eraced_lines >= MAX_ERACE_LINES {
                self.stats.max_erace_count = self.stats.max_erace_count.saturating_add(1);
            }
            if self.t_spin_mode != TSpinType::NoSpin {
                self.stats.t_spin_erace_lines = self.stats.t_spin_erace_lines.saturating_add(
                    eraced_lines,
                );
            }
            self.score = self.score.saturating_add(points);
            self.combo_mode = true;
            self.stats.combos = self.stats.combos.saturating_add(1);
            self.attack_power = power;
            self.state = PlayState::Eracing;
        } else {
            self.combo_mode = false;
            self.stats.combos = 0;
            self.state = PlayState::WaitStart;
        }
        self.wait_timer = now;
    }

    /// Hands out the garbage lines earned since the last call, and forgets
    /// them.
    pub fn pop_attack_power(&mut self) -> (power: usize)
        ensures
            power == old(self)@.attack_power,
            final(self)@ == (EngineModel { attack_power: 0, ..old(self)@ }),
    {
        let power = self.attack_power;
        self.attack_power = 0;
        power
    }

    /// Receives garbage lines. They add up until the next round begins.
    pub fn apply_attack(&mut self, attack_power: usize)
        ensures
            final(self)@ == (EngineModel {
                applied_attack: capped_usize(old(self)@.applied_attack + attack_power),
                ..old(self)@
            }),
    {
        self.applied_attack = self.applied_attack.saturating_add(attack_power);
    }

    /// Whether the game is lost.
    pub fn is_game_over(&self) -> (over: bool)
        ensures
            over == self@.game_over,
    {
        self.is_game_over
    }

    /// The points; 0 where the controller says that nobody plays.
    pub fn get_score(&self) -> (score: u64)
        ensures
            score == self@.score || score == 0,
    {
        let person_plays = self.controller.is_player_exists();
        self.score_for(person_plays)
    }

    /// Whether the controller asks for a pause. What it answers is handed
    /// on as it is: a person asks with the pause key, the computer never
    /// asks.
    pub fn pause_requested(&self, key_input: &dyn KeyInput) -> bool {
        self.controller.is_pause_requested(key_input)
    }

    /// The score to show, given whether a person plays: the points of a
    /// person, and 0 for anybody else.
    pub fn score_for(&self, person_plays: bool) -> (score: u64)
        ensures
            score == if person_plays {
                self@.score
            } else {
                0
            },
    {
        if person_plays {
            return self.score;
        }
        0
    }

    /// The falling piece.
    pub fn get_control_block(&self) -> (piece: &ControlBlock)
        ensures
            piece@ == self@.piece,
    {
        &self.control_block
    }

    /// A copy of the cells of the field, buffer rows included.
    pub fn get_field_data(&self) -> (cells: Vec<Vec<BlockType>>)
        ensures
            grid_view(cells) == self@.cells,
    {
        self.field.get_all_grid_data()
    }

    /// Where the falling piece would come to rest.
    pub fn get_ghost_pos(&self) -> (rest: Grid)
        ensures
            rest.x == self@.piece.x,
            rest.y == if crate::gameplay::block::block_datas::shape_has_block(self@.piece.shape) {
                landing_y(self@.cells, self@.piece.shape, self@.piece.x, self@.piece.y)
            } else {
                self@.piece.y
            },
    {
        self.field.get_ghost_position(&self.control_block.block, &self.control_block.position)
    }

    /// The piece that comes after `look_ahead` others.
    pub fn get_next_block(&self, look_ahead: usize) -> (piece: BlockType)
        ensures
            piece == preview(self@.queue, look_ahead as int),
    {
        self.next_blocks.show_next_block(look_ahead)
    }

    /// The kind in the hold slot.
    pub fn get_hold_block(&self) -> (held: BlockType)
        ensures
            held == self@.slot.held,
    {
        self.hold_block.get_holding_block()
    }

    /// The counters.
    pub fn get_stats(&self) -> (stats: &GameplayStats)
        ensures
            *stats == self@.stats,
    {
        &self.stats
    }
}

} // verus!
