//! Who moves the falling piece: a player at the keyboard, or the computer.

use vstd::prelude::*;
use crate::gameplay::block::block_datas::{
    block_shape, block_start_position, shape_has_block, shape_of, BlockType,
    BLOCK_START_POSITION_X, BLOCK_START_POSITION_Y,
};
use crate::gameplay::block::control_block::{
    can_counter_rotate, can_rotate, can_shift, counter_rotated, hard_dropped, rotated, shifted,
    spawned, ControlBlock, PieceModel,
};
use crate::gameplay::block::hold_block::{after_hold, HoldBlock, HoldModel};
use crate::gameplay::block::next_blocks::{draws, NextBlocks};
use crate::gameplay::field::{landing_y, Field, FIELD_WIDTH};
use crate::gameplay::key_input::{duration_nanos, KeyCode, KeyInput};
use crate::utility::grid::Grid;
use crate::utility::vector_util::{grid_view, rotate_vec_90_clockwise, rotated_clockwise};

verus! {

/// What `control` adds to its count for a hard drop: more than any number of
/// ordinary moves.
pub const HARD_DROP_MOVE_COUNT: i32 = 999;

/// What `control` returns when the piece went into the hold slot.
pub const HOLD_USING: i32 = -1;

/// Something that moves the falling piece, once per frame.
pub trait PlayController: Send {
    /// Looks at the piece that was just spawned, at the piece a hold would
    /// bring, and at the field, and prepares what to do. Does nothing unless
    /// the controller plans ahead.
    fn plan(&mut self, target_block_type: &BlockType, hold_block_type: &BlockType, field: &Field) {
    }

    /// Moves the piece for one frame. Returns how many moves were made,
    /// `HOLD_USING` after a hold, or a count of at least
    /// `HARD_DROP_MOVE_COUNT` after a hard drop.
    fn control(
        &mut self,
        key_input: &dyn KeyInput,
        target: &mut ControlBlock,
        hold_block: &mut HoldBlock,
        field: &Field,
        next_blocks: &mut NextBlocks,
        drop_time_ms: u128,
        auto_drop_count: u32,
    ) -> i32;

    /// Whether the controller asks for a pause.
    fn is_pause_requested(&self, key_input: &dyn KeyInput) -> bool;

    /// Whether a person is playing.
    fn is_player_exists(&self) -> (person: bool)
        default_ensures person,
    {
        true
    }
}

/// What a try to hold does to the piece, the slot and the queue, and what it
/// reports. Without permission nothing changes and 0 is reported. With it,
/// the piece's kind goes into the slot and `HOLD_USING` is reported; what
/// was held is spawned in its place, or, where nothing was held, the next
/// piece of the queue.
pub open spec fn hold_applied(
    piece: PieceModel,
    slot: HoldModel,
    queue: Seq<BlockType>,
    piece_after: PieceModel,
    slot_after: HoldModel,
    queue_after: Seq<BlockType>,
    signal: int,
) -> bool {
    if !slot.permitted {
        piece_after == piece && slot_after == slot && queue_after == queue && signal == 0
    } else {
        &&& slot_after == after_hold(slot, piece.kind)
        &&& signal == HOLD_USING
        &&& if slot.held != BlockType::Empty {
            piece_after == spawned(slot.held, BLOCK_START_POSITION_X as int, BLOCK_START_POSITION_Y as int)
                && queue_after == queue
        } else {
            draws(queue, queue_after, queue[0]) && piece_after == spawned(
                queue[0],
                BLOCK_START_POSITION_X as int,
                BLOCK_START_POSITION_Y as int,
            )
        }
    }
}

/// Swaps the falling piece with the hold slot, if a hold is permitted.
pub fn apply_hold(target: &mut ControlBlock, hold_block: &mut HoldBlock, next_blocks: &mut NextBlocks) -> (signal: i32)
    ensures
        hold_applied(
            old(target)@,
            old(hold_block)@,
            old(next_blocks).queue(),
            final(target)@,
            final(hold_block)@,
            final(next_blocks).queue(),
            signal as int,
        ),
{
    if hold_block.can_hold() {
        let current_block_type = target.block_type;
        if let Some(held_block_type) = hold_block.hold(current_block_type) {
            proof {
                crate::gameplay::block::block_datas::lemma_bottom_row_bound(shape_of(held_block_type));
            }
            if held_block_type != BlockType::Empty {
                target.apply_block(held_block_type, block_start_position());
            } else {
                let next_block = next_blocks.next();
                proof {
                    crate::gameplay::block::block_datas::lemma_bottom_row_bound(shape_of(next_block));
                }
                target.apply_block(next_block, block_start_position());
            }
        }
        return HOLD_USING;
    }
    0
}

/// How many frames the computer lets pass between two moves.
pub const DEFAULT_COMPUTER_MOVE_COUNT: usize = 10;

/// The computer as a player: it picks the column and the number of turns
/// that let the piece come to rest lowest, and then walks the piece there
/// one move at a time.
pub struct ComputerController {
    target_pos_x: i32,
    rotate_count: usize,
    use_hold: bool,
    move_wait_counter: usize,
}

/// What the computer has planned, as plain values.
pub struct PlanModel {
    /// The column to steer the piece to.
    pub target_x: int,
    /// How many quarter turns to the right are still to be made.
    pub rotations: int,
    /// Whether to swap the piece with the hold slot first.
    pub use_hold: bool,
    /// How many frames to let pass before the next move.
    pub wait: int,
}

/// `shape` after `n` quarter turns to the right.
pub open spec fn turned_times(shape: Seq<Seq<BlockType>>, n: int) -> Seq<Seq<BlockType>>
    decreases n,
{
    if n <= 0 {
        shape
    } else {
        rotated_clockwise(turned_times(shape, n - 1))
    }
}

/// The row on which a piece of `kind`, turned `rotations` times, comes to
/// rest when it falls from the top of the field in column `x`.
pub open spec fn plan_depth(cells: Seq<Seq<BlockType>>, kind: BlockType, rotations: int, x: int) -> int {
    let shape = turned_times(shape_of(kind), rotations);
    if shape_has_block(shape) {
        landing_y(cells, shape, x, 0)
    } else {
        0
    }
}

/// The placements the computer considers are numbered from 0 to 79: first
/// the falling piece, then the piece a hold would bring; for each of them
/// zero to three turns; for each of those the ten columns. This is the depth
/// that placement `i` reaches.
pub open spec fn candidate_depth(cells: Seq<Seq<BlockType>>, target: BlockType, hold: BlockType, i: int) -> int {
    plan_depth(cells, if i >= 40 { hold } else { target }, (i % 40) / 10, i % 10)
}

/// The plan that carries out placement `i`.
pub open spec fn candidate_plan(i: int) -> PlanModel {
    PlanModel {
        target_x: i % 10,
        rotations: (i % 40) / 10,
        use_hold: i >= 40,
        wait: DEFAULT_COMPUTER_MOVE_COUNT as int,
    }
}

/// Among the placements below `upto`, `i` is the first that reaches the
/// greatest depth, and that depth is below the top row.
pub open spec fn is_best_candidate(
    cells: Seq<Seq<BlockType>>,
    target: BlockType,
    hold: BlockType,
    i: int,
    upto: int,
) -> bool {
    &&& 0 <= i < upto
    &&& candidate_depth(cells, target, hold, i) > 0
    &&& forall|j: int|
        0 <= j < upto ==> #[trigger] candidate_depth(cells, target, hold, j) <= candidate_depth(
            cells,
            target,
            hold,
            i,
        )
    &&& forall|j: int|
        0 <= j < i ==> #[trigger] candidate_depth(cells, target, hold, j) < candidate_depth(
            cells,
            target,
            hold,
            i,
        )
}

/// None of the placements below `upto` gets below the top row.
pub open spec fn no_candidate(cells: Seq<Seq<BlockType>>, target: BlockType, hold: BlockType, upto: int) -> bool {
    forall|j: int| 0 <= j < upto ==> #[trigger] candidate_depth(cells, target, hold, j) <= 0
}

/// What planning does to a plan: the first placement that reaches the
/// greatest depth is taken; where none gets below the top row the old plan
/// stays. Either way the wait before the first move starts anew.
pub open spec fn planned(
    before: PlanModel,
    cells: Seq<Seq<BlockType>>,
    target: BlockType,
    hold: BlockType,
    after: PlanModel,
) -> bool {
    ||| no_candidate(cells, target, hold, 80) && after == (PlanModel {
        wait: DEFAULT_COMPUTER_MOVE_COUNT as int,
        ..before
    })
    ||| exists|i: int| is_best_candidate(cells, target, hold, i, 80) && after == candidate_plan(i)
}

/// What the scan knows after the placements below `upto`: `best` is the
/// best of them and reaches `max_y`, or it is -1 and none of them got below
/// the top row.
pub open spec fn scan_ok(
    cells: Seq<Seq<BlockType>>,
    target: BlockType,
    hold: BlockType,
    upto: int,
    best: int,
    max_y: int,
) -> bool {
    &&& best == -1 ==> no_candidate(cells, target, hold, upto) && max_y == 0
    &&& best != -1 ==> is_best_candidate(cells, target, hold, best, upto) && max_y
        == candidate_depth(cells, target, hold, best)
}

/// What one frame of the computer's play does. While it waits, only the
/// wait shrinks. Then, one thing per frame: the hold, if one is planned; a
/// turn, if turns are left; a step toward the target column; and once
/// nothing is left to do, or the planned hold is refused, the hard drop.
pub open spec fn computer_moved(
    plan: PlanModel,
    piece: PieceModel,
    slot: HoldModel,
    queue: Seq<BlockType>,
    cells: Seq<Seq<BlockType>>,
    plan_after: PlanModel,
    piece_after: PieceModel,
    slot_after: HoldModel,
    queue_after: Seq<BlockType>,
    signal: int,
) -> bool {
    let rested = PlanModel { wait: DEFAULT_COMPUTER_MOVE_COUNT as int, ..plan };
    if plan.wait > 0 {
        &&& plan_after == (PlanModel { wait: plan.wait - 1, ..plan })
        &&& piece_after == piece
        &&& slot_after == slot
        &&& queue_after == queue
        &&& signal == 0
    } else if plan.use_hold {
        &&& plan_after == (PlanModel { use_hold: false, ..rested })
        &&& if slot.permitted {
            hold_applied(piece, slot, queue, piece_after, slot_after, queue_after, signal)
        } else {
            piece_after == hard_dropped(piece, cells) && slot_after == slot && queue_after == queue
                && signal == HARD_DROP_MOVE_COUNT
        }
    } else {
        &&& slot_after == slot
        &&& queue_after == queue
        &&& if plan.rotations > 0 {
            plan_after == (PlanModel { rotations: plan.rotations - 1, ..rested }) && piece_after
                == rotated(piece, cells) && signal == 1
        } else if piece.x < plan.target_x {
            plan_after == rested && piece_after == shifted(piece, cells, 1, 0) && signal == 1
        } else if piece.x > plan.target_x {
            plan_after == rested && piece_after == shifted(piece, cells, -1, 0) && signal == 1
        } else {
            plan_after == rested && piece_after == hard_dropped(piece, cells) && signal
                == HARD_DROP_MOVE_COUNT
        }
    }
}

impl ComputerController {
    /// The plan as plain values.
    pub closed spec fn view(&self) -> PlanModel {
        PlanModel {
            target_x: self.target_pos_x as int,
            rotations: self.rotate_count as int,
            use_hold: self.use_hold,
            wait: self.move_wait_counter as int,
        }
    }

    /// A computer player that has not planned anything yet.
    pub fn new() -> (controller: Self)
        ensures
            controller@ == (PlanModel {
                target_x: 0,
                rotations: 0,
                use_hold: false,
                wait: DEFAULT_COMPUTER_MOVE_COUNT as int,
            }),
    {
        ComputerController {
            target_pos_x: 0,
            rotate_count: 0,
            use_hold: false,
            move_wait_counter: DEFAULT_COMPUTER_MOVE_COUNT,
        }
    }

    /// Tries every placement of the falling piece and of the piece a hold
    /// would bring, and keeps the first that comes to rest lowest.
    pub fn make_plan(&mut self, target_block_type: &BlockType, hold_block_type: &BlockType, field: &Field)
        ensures
            planned(old(self)@, field@, *target_block_type, *hold_block_type, final(self)@),
    {
        let ghost cells = field@;
        let ghost target = *target_block_type;
        let ghost hold = *hold_block_type;
        let ghost before = self@;
        let ghost mut best: int = -1;
        let mut max_y: i32 = 0;
        let mut h: usize = 0;
        while h < 2
            invariant
                h <= 2,
                cells == field@,
                target == *target_block_type,
                hold == *hold_block_type,
                before == old(self)@,
                scan_ok(cells, target, hold, h * 40, best, max_y as int),
                best == -1 ==> self@ == before,
                best != -1 ==> self@ == (PlanModel { wait: before.wait, ..candidate_plan(best) }),
            decreases 2 - h,
        {
            let use_hold = h == 1;
            let block_type = if use_hold {
                *hold_block_type
            } else {
                *target_block_type
            };
            let mut rotate_count: usize = 0;
            while rotate_count < 4
                invariant
                    h < 2,
                    use_hold == (h == 1),
                    block_type == (if use_hold { hold } else { target }),
                    rotate_count <= 4,
                    cells == field@,
                    target == *target_block_type,
                    hold == *hold_block_type,
                    before == old(self)@,
                    scan_ok(cells, target, hold, h * 40 + rotate_count * 10, best, max_y as int),
                    best == -1 ==> self@ == before,
                    best != -1 ==> self@ == (PlanModel { wait: before.wait, ..candidate_plan(best) }),
                decreases 4 - rotate_count,
            {
                let mut shape = block_shape(block_type);
                let mut k: usize = 0;
                while k < rotate_count
                    invariant
                        k <= rotate_count,
                        grid_view(shape) == turned_times(shape_of(block_type), k as int),
                    decreases rotate_count - k,
                {
                    shape = rotate_vec_90_clockwise(&shape);
                    k += 1;
                }
                let mut x: usize = 0;
                while x < FIELD_WIDTH
                    invariant
                        h < 2,
                        use_hold == (h == 1),
                        block_type == (if use_hold { hold } else { target }),
                        rotate_count < 4,
                        x <= FIELD_WIDTH,
                        cells == field@,
                        target == *target_block_type,
                        hold == *hold_block_type,
                        before == old(self)@,
                        grid_view(shape) == turned_times(shape_of(block_type), rotate_count as int),
                        scan_ok(cells, target, hold, h * 40 + rotate_count * 10 + x, best, max_y as int),
                        best == -1 ==> self@ == before,
                        best != -1 ==> self@ == (PlanModel {
                            wait: before.wait,
                            ..candidate_plan(best)
                        }),
                    decreases FIELD_WIDTH - x,
                {
                    let ghost i: int = h * 40 + rotate_count * 10 + x;
                    let now_position = Grid::new(x as i32, 0);
                    let rest = field.get_ghost_position(&shape, &now_position);
                    assert(i % 10 == x && (i % 40) / 10 == rotate_count && (i >= 40) == use_hold);
                    assert(rest.y == candidate_depth(cells, target, hold, i));
                    if rest.y > max_y {
                        self.target_pos_x = x as i32;
                        self.rotate_count = rotate_count;
                        self.use_hold = use_hold;
                        max_y = rest.y;
                        proof {
                            best = i;
                        }
                    }
                    x += 1;
                }
                rotate_count += 1;
            }
            h += 1;
        }
        self.move_wait_counter = DEFAULT_COMPUTER_MOVE_COUNT;
        proof {
            if best != -1 {
                assert(is_best_candidate(cells, target, hold, best, 80));
            }
        }
    }

    /// Makes the next move of the plan, if the wait is over.
    pub fn make_move(
        &mut self,
        target: &mut ControlBlock,
        hold_block: &mut HoldBlock,
        field: &Field,
        next_blocks: &mut NextBlocks,
    ) -> (signal: i32)
        ensures
            computer_moved(
                old(self)@,
                old(target)@,
                old(hold_block)@,
                old(next_blocks).queue(),
                field@,
                final(self)@,
                final(target)@,
                final(hold_block)@,
                final(next_blocks).queue(),
                signal as int,
            ),
    {
        if self.move_wait_counter > 0 {
            self.move_wait_counter -= 1;
            return 0;
        }
        let mut move_count: i32 = 0;
        if self.use_hold {
            move_count = apply_hold(target, hold_block, next_blocks);
            self.use_hold = false;
        } else if self.rotate_count > 0 {
            target.rotate(field);
            self.rotate_count -= 1;
            move_count += 1;
        } else if target.position.x < self.target_pos_x {
            target.right(field);
            move_count += 1;
        } else if target.position.x > self.target_pos_x {
            target.left(field);
            move_count += 1;
        }
        if move_count == 0 {
            target.hard_drop(field);
            move_count += HARD_DROP_MOVE_COUNT;
        }
        self.move_wait_counter = DEFAULT_COMPUTER_MOVE_COUNT;
        move_count
    }
}

impl PlayController for ComputerController {
    fn plan(&mut self, target_block_type: &BlockType, hold_block_type: &BlockType, field: &Field)
        ensures
            planned(old(self)@, field@, *target_block_type, *hold_block_type, final(self)@),
    {
        self.make_plan(target_block_type, hold_block_type, field);
    }

    fn control(
        &mut self,
        key_input: &dyn KeyInput,
        target: &mut ControlBlock,
        hold_block: &mut HoldBlock,
        field: &Field,
        next_blocks: &mut NextBlocks,
        drop_time_ms: u128,
        auto_drop_count: u32,
    ) -> (signal: i32)
        ensures
            computer_moved(
                old(self)@,
                old(target)@,
                old(hold_block)@,
                old(next_blocks).queue(),
                field@,
                final(self)@,
                final(target)@,
                final(hold_block)@,
                final(next_blocks).queue(),
                signal as int,
            ),
    {
        self.make_move(target, hold_block, field, next_blocks)
    }

    /// The computer never asks for a pause.
    fn is_pause_requested(&self, key_input: &dyn KeyInput) -> (pause: bool)
        ensures
            !pause,
    {
        false
    }

    /// Nobody is playing.
    fn is_player_exists(&self) -> (person: bool)
        ensures
            !person,
    {
        false
    }
}

/// How long a key must be held before it starts to repeat, in milliseconds.
pub const AUTO_REPEAT_INITIAL_DELAY_MS: u64 = 300;

/// The time between two repeats of a sideways move, in milliseconds.
pub const AUTO_HORIZONTAL_REPEAT_INTERVAL_MS: u64 = 50;

/// How many times faster than gravity the piece falls in a soft drop.
pub const DROP_VELOCITY_MULTIPLIER: u128 = 20;

/// Nanoseconds in a millisecond.
pub const NANOS_PER_MILLI: u128 = 1_000_000;

/// Which key does what for one player.
#[derive(Clone, Copy)]
pub struct PlayerKeyAssigns {
    pub left_key: KeyCode,
    pub right_key: KeyCode,
    pub down_key: KeyCode,
    pub rotate_key: KeyCode,
    pub counter_rotate_key: KeyCode,
    pub hard_drop_key: KeyCode,
    pub hold_key: KeyCode,
    pub pause_key: KeyCode,
}

impl PlayerKeyAssigns {
    /// The keys of the first player: the arrow keys to move and to turn
    /// right, `z` to turn left, space to drop, `c` to hold, escape to pause.
    pub fn player1_keys() -> (keys: Self)
        ensures
            keys == (PlayerKeyAssigns {
                left_key: KeyCode::Left,
                right_key: KeyCode::Right,
                down_key: KeyCode::Down,
                rotate_key: KeyCode::Up,
                counter_rotate_key: KeyCode::Char('z'),
                hard_drop_key: KeyCode::Char(' '),
                hold_key: KeyCode::Char('c'),
                pause_key: KeyCode::Esc,
            }),
    {
        PlayerKeyAssigns {
            left_key: KeyCode::Left,
            right_key: KeyCode::Right,
            down_key: KeyCode::Down,
            rotate_key: KeyCode::Up,
            counter_rotate_key: KeyCode::Char('z'),
            hard_drop_key: KeyCode::Char(' '),
            hold_key: KeyCode::Char('c'),
            pause_key: KeyCode::Esc,
        }
    }

    /// The keys of the second player: `j`, `l` and `k` to move, `,` and `m`
    /// to turn, `;` to drop, `.` to hold, `p` to pause.
    pub fn player2_keys() -> (keys: Self)
        ensures
            keys == (PlayerKeyAssigns {
                left_key: KeyCode::Char('j'),
                right_key: KeyCode::Char('l'),
                down_key: KeyCode::Char('k'),
                rotate_key: KeyCode::Char(','),
                counter_rotate_key: KeyCode::Char('m'),
                hard_drop_key: KeyCode::Char(';'),
                hold_key: KeyCode::Char('.'),
                pause_key: KeyCode::Char('p'),
            }),
    {
        PlayerKeyAssigns {
            left_key: KeyCode::Char('j'),
            right_key: KeyCode::Char('l'),
            down_key: KeyCode::Char('k'),
            rotate_key: KeyCode::Char(','),
            counter_rotate_key: KeyCode::Char('m'),
            hard_drop_key: KeyCode::Char(';'),
            hold_key: KeyCode::Char('.'),
            pause_key: KeyCode::Char('p'),
        }
    }
}

/// What the keyboard says of one player's keys in one frame.
#[derive(Clone, Copy)]
pub struct KeyFrame {
    /// The left key went down in this frame.
    pub left_down: bool,
    /// The left key is held.
    pub left_press: bool,
    /// For how many nanoseconds the left key has been held.
    pub left_elapsed_nanos: u128,
    /// The right key went down in this frame.
    pub right_down: bool,
    /// The right key is held.
    pub right_press: bool,
    /// For how many nanoseconds the right key has been held.
    pub right_elapsed_nanos: u128,
    /// The down key is held.
    pub down_press: bool,
    /// For how many nanoseconds the down key has been held.
    pub down_elapsed_nanos: u128,
    /// The key for a turn to the right went down in this frame.
    pub rotate_down: bool,
    /// The key for a turn to the left went down in this frame.
    pub counter_rotate_down: bool,
    /// The key for a hard drop went down in this frame.
    pub hard_drop_down: bool,
    /// The key for a hold went down in this frame.
    pub hold_down: bool,
}

/// How many repeats each held key has already been given.
pub struct RepeatCounters {
    pub left: int,
    pub right: int,
    pub down: int,
}

/// What the keys do to the piece before a hold is looked at.
pub struct KeyOutcome {
    /// The piece after all moves.
    pub piece: PieceModel,
    /// How many moves count against the lock delay.
    pub moves: int,
    /// The repeat counters after the frame.
    pub counters: RepeatCounters,
}

/// `v`, or the greatest `u32` where `v` is beyond it.
pub open spec fn capped_u32(v: int) -> int {
    if v > u32::MAX {
        u32::MAX as int
    } else {
        v
    }
}

/// `v`, or the greatest `i32` where `v` is beyond it.
pub open spec fn capped_i32(v: int) -> int {
    if v > i32::MAX {
        i32::MAX as int
    } else {
        v
    }
}

/// The piece after `n` tries to move by `(dx, dy)`.
pub open spec fn shifted_times(piece: PieceModel, cells: Seq<Seq<BlockType>>, dx: int, dy: int, n: int) -> PieceModel
    decreases n,
{
    if n <= 0 {
        piece
    } else {
        shifted(shifted_times(piece, cells, dx, dy, n - 1), cells, dx, dy)
    }
}

/// How many sideways repeats a key is owed in this frame: one for every
/// repeat interval that has passed since the initial delay ran out, less
/// those it was already given.
pub open spec fn horizontal_repeats(press: bool, elapsed_nanos: u128, counter: int) -> int {
    let due = (elapsed_nanos / NANOS_PER_MILLI - AUTO_REPEAT_INITIAL_DELAY_MS)
        / AUTO_HORIZONTAL_REPEAT_INTERVAL_MS as int;
    if press && elapsed_nanos > AUTO_REPEAT_INITIAL_DELAY_MS * NANOS_PER_MILLI && due > counter {
        due - counter
    } else {
        0
    }
}

/// How many rows the down key is owed in this frame: the rows a piece
/// falling `DROP_VELOCITY_MULTIPLIER` times as fast as gravity would have
/// covered since the key went down, less those already given and less those
/// gravity itself moved the piece in this frame. A drop time of zero owes
/// nothing.
pub open spec fn soft_drop_repeats(
    press: bool,
    elapsed_nanos: u128,
    drop_time_ms: u128,
    counter: int,
    auto_drop_count: u32,
) -> int {
    let due = if drop_time_ms == 0 {
        0
    } else {
        capped_u32((elapsed_nanos / NANOS_PER_MILLI) * DROP_VELOCITY_MULTIPLIER / drop_time_ms as int)
    };
    if press && due - counter > auto_drop_count {
        due - counter - auto_drop_count
    } else {
        0
    }
}

/// A repeat counter after a frame: back to zero once the key is released,
/// else raised by the repeats given.
pub open spec fn counter_after(press: bool, counter: int, repeats: int) -> int {
    if press {
        capped_u32(counter + repeats)
    } else {
        0
    }
}

/// The piece after the work of one sideways key: one step where the key
/// went down in this frame, and then the repeats it is owed.
pub open spec fn side_stepped(
    piece: PieceModel,
    cells: Seq<Seq<BlockType>>,
    dx: int,
    key_down: bool,
    repeats: int,
) -> PieceModel {
    shifted_times(if key_down { shifted(piece, cells, dx, 0) } else { piece }, cells, dx, 0, repeats)
}

/// The piece after the turn keys and the hard drop key had their say: a
/// turn to the right, a turn to the left, the hard drop, in this order.
pub open spec fn turns_applied(piece: PieceModel, cells: Seq<Seq<BlockType>>, keys: KeyFrame) -> PieceModel {
    let p1 = if keys.rotate_down { rotated(piece, cells) } else { piece };
    let p2 = if keys.counter_rotate_down { counter_rotated(p1, cells) } else { p1 };
    if keys.hard_drop_down {
        hard_dropped(p2, cells)
    } else {
        p2
    }
}

/// How many moves the turn keys and the hard drop key made: one for every
/// turn that succeeded, and `HARD_DROP_MOVE_COUNT` for a hard drop.
pub open spec fn turn_moves(piece: PieceModel, cells: Seq<Seq<BlockType>>, keys: KeyFrame) -> int {
    let p1 = if keys.rotate_down { rotated(piece, cells) } else { piece };
    (if keys.rotate_down && can_rotate(piece, cells) { 1int } else { 0int })
        + (if keys.counter_rotate_down && can_counter_rotate(p1, cells) { 1int } else { 0int })
        + (if keys.hard_drop_down { HARD_DROP_MOVE_COUNT as int } else { 0int })
}

/// What one frame of keys does to the piece, in this order: a step and the
/// repeats to the left, a step and the repeats to the right, the soft drop,
/// a turn to the right, a turn to the left, the hard drop. Every sideways
/// step and every turn that succeeds counts as one move, a hard drop as
/// `HARD_DROP_MOVE_COUNT`; rows fallen do not count.
pub open spec fn keys_applied(
    piece: PieceModel,
    cells: Seq<Seq<BlockType>>,
    keys: KeyFrame,
    counters: RepeatCounters,
    drop_time_ms: u128,
    auto_drop_count: u32,
) -> KeyOutcome {
    let left_repeats = horizontal_repeats(keys.left_press, keys.left_elapsed_nanos, counters.left);
    let right_repeats = horizontal_repeats(keys.right_press, keys.right_elapsed_nanos, counters.right);
    let down_repeats = soft_drop_repeats(
        keys.down_press,
        keys.down_elapsed_nanos,
        drop_time_ms,
        counters.down,
        auto_drop_count,
    );
    let on_left = side_stepped(piece, cells, -1, keys.left_down, left_repeats);
    let on_right = side_stepped(on_left, cells, 1, keys.right_down, right_repeats);
    let lowered = shifted_times(on_right, cells, 0, 1, down_repeats);
    KeyOutcome {
        piece: turns_applied(lowered, cells, keys),
        moves: capped_i32(
            (piece.x - on_left.x) + (on_right.x - on_left.x) + turn_moves(lowered, cells, keys),
        ),
        counters: RepeatCounters {
            left: counter_after(keys.left_press, counters.left, left_repeats),
            right: counter_after(keys.right_press, counters.right, right_repeats),
            down: counter_after(keys.down_press, counters.down, down_repeats),
        },
    }
}

/// What one frame of a player's keys does: the moves of `keys_applied`, and
/// after them, where the hold key went down, the hold, whose report then
/// replaces the count of moves.
pub open spec fn player_moved(
    keys: KeyFrame,
    counters: RepeatCounters,
    piece: PieceModel,
    slot: HoldModel,
    queue: Seq<BlockType>,
    cells: Seq<Seq<BlockType>>,
    drop_time_ms: u128,
    auto_drop_count: u32,
    counters_after: RepeatCounters,
    piece_after: PieceModel,
    slot_after: HoldModel,
    queue_after: Seq<BlockType>,
    signal: int,
) -> bool {
    let outcome = keys_applied(piece, cells, keys, counters, drop_time_ms, auto_drop_count);
    &&& counters_after == outcome.counters
    &&& if keys.hold_down {
        hold_applied(outcome.piece, slot, queue, piece_after, slot_after, queue_after, signal)
    } else {
        piece_after == outcome.piece && slot_after == slot && queue_after == queue && signal
            == outcome.moves
    }
}

/// Once a piece cannot move in a direction, more tries change nothing.
proof fn lemma_shift_stuck(piece: PieceModel, cells: Seq<Seq<BlockType>>, dx: int, dy: int, i: int, n: int)
    requires
        0 <= i <= n,
        !can_shift(shifted_times(piece, cells, dx, dy, i), cells, dx, dy),
    ensures
        shifted_times(piece, cells, dx, dy, n) == shifted_times(piece, cells, dx, dy, i),
    decreases n - i,
{
    if i < n {
        lemma_shift_stuck(piece, cells, dx, dy, i, n - 1);
    }
}

/// Tries `times` times to move the piece one cell along one axis, and tells
/// how many cells it moved.
pub(crate) fn repeat_shift(target: &mut ControlBlock, field: &Field, dx: i32, dy: i32, times: u128) -> (made: u64)
    requires
        -1 <= dx <= 1,
        -1 <= dy <= 1,
        (dx == 0) != (dy == 0),
    ensures
        final(target)@ == shifted_times(old(target)@, field@, dx as int, dy as int, times as int),
        dx != 0 ==> made == (final(target)@.x - old(target)@.x) * dx,
        dy != 0 ==> made == (final(target)@.y - old(target)@.y) * dy,
{
    let ghost start = target@;
    let mut made: u64 = 0;
    let mut i: u128 = 0;
    while i < times
        invariant
            i <= times,
            -1 <= dx <= 1,
            -1 <= dy <= 1,
            (dx == 0) != (dy == 0),
            start == old(target)@,
            target@ == shifted_times(start, field@, dx as int, dy as int, i as int),
            dx == 1 ==> target@.x == start.x + made,
            dx == -1 ==> target@.x == start.x - made,
            dy == 1 ==> target@.y == start.y + made,
            dy == -1 ==> target@.y == start.y - made,
        decreases times - i,
    {
        if !target.shift(field, dx, dy) {
            proof {
                lemma_shift_stuck(start, field@, dx as int, dy as int, i as int, times as int);
            }
            return made;
        }
        made += 1;
        i += 1;
    }
    made
}

/// Does the work of one sideways key and tells how many cells the piece
/// moved.
fn side_step(target: &mut ControlBlock, field: &Field, dx: i32, key_down: bool, repeats: u128) -> (made: u64)
    requires
        dx == 1 || dx == -1,
    ensures
        final(target)@ == side_stepped(old(target)@, field@, dx as int, key_down, repeats as int),
        made == (final(target)@.x - old(target)@.x) * dx,
{
    let mut made: u64 = 0;
    if key_down {
        if target.shift(field, dx, 0) {
            made += 1;
        }
    }
    let more = repeat_shift(target, field, dx, 0, repeats);
    made + more
}

/// Makes the turns and the hard drop that the keys ask for and counts the
/// moves.
fn turn_by_keys(target: &mut ControlBlock, field: &Field, keys: &KeyFrame) -> (moves: u64)
    ensures
        final(target)@ == turns_applied(old(target)@, field@, *keys),
        moves == turn_moves(old(target)@, field@, *keys),
{
    let mut moves: u64 = 0;
    if keys.rotate_down {
        if target.rotate(field) {
            moves += 1;
        }
    }
    if keys.counter_rotate_down {
        if target.counter_rotate(field) {
            moves += 1;
        }
    }
    if keys.hard_drop_down {
        target.hard_drop(field);
        moves += HARD_DROP_MOVE_COUNT as u64;
    }
    moves
}

/// A player at the keyboard.
pub struct PlayerController {
    left_key: KeyCode,
    right_key: KeyCode,
    down_key: KeyCode,
    rotate_key: KeyCode,
    counter_rotate_key: KeyCode,
    hard_drop_key: KeyCode,
    hold_key: KeyCode,
    pause_key: KeyCode,
    repeat_counter_left: u32,
    repeat_counter_right: u32,
    repeat_counter_down: u32,
}

/// The repeats owed to a sideways key, computed from the key's state.
fn horizontal_due(press: bool, elapsed_nanos: u128, counter: u32) -> (repeats: u128)
    ensures
        repeats == horizontal_repeats(press, elapsed_nanos, counter as int),
{
    if press && elapsed_nanos > AUTO_REPEAT_INITIAL_DELAY_MS as u128 * NANOS_PER_MILLI {
        let due = (elapsed_nanos / NANOS_PER_MILLI - AUTO_REPEAT_INITIAL_DELAY_MS as u128)
            / AUTO_HORIZONTAL_REPEAT_INTERVAL_MS as u128;
        if due > counter as u128 {
            return due - counter as u128;
        }
    }
    0
}

/// The rows owed to the down key, computed from the key's state.
fn soft_drop_due(press: bool, elapsed_nanos: u128, drop_time_ms: u128, counter: u32, auto_drop_count: u32) -> (repeats: u128)
    ensures
        repeats == soft_drop_repeats(press, elapsed_nanos, drop_time_ms, counter as int, auto_drop_count),
{
    if !press || drop_time_ms == 0 {
        return 0;
    }
    let covered = (elapsed_nanos / NANOS_PER_MILLI) * DROP_VELOCITY_MULTIPLIER / drop_time_ms;
    let due: u128 = if covered > u32::MAX as u128 {
        u32::MAX as u128
    } else {
        covered
    };
    let given = counter as u128 + auto_drop_count as u128;
    if due > given {
        due - given
    } else {
        0
    }
}

/// A repeat counter after a frame.
fn next_counter(press: bool, counter: u32, repeats: u128) -> (after: u32)
    ensures
        after == counter_after(press, counter as int, repeats as int),
{
    if !press {
        0
    } else if repeats > (u32::MAX - counter) as u128 {
        u32::MAX
    } else {
        counter + repeats as u32
    }
}

impl PlayerController {
    /// How many repeats each held key has already been given.
    pub closed spec fn counters(&self) -> RepeatCounters {
        RepeatCounters {
            left: self.repeat_counter_left as int,
            right: self.repeat_counter_right as int,
            down: self.repeat_counter_down as int,
        }
    }

    /// Which key does what.
    pub closed spec fn key_assigns(&self) -> PlayerKeyAssigns {
        PlayerKeyAssigns {
            left_key: self.left_key,
            right_key: self.right_key,
            down_key: self.down_key,
            rotate_key: self.rotate_key,
            counter_rotate_key: self.counter_rotate_key,
            hard_drop_key: self.hard_drop_key,
            hold_key: self.hold_key,
            pause_key: self.pause_key,
        }
    }

    /// A player with the given keys, none of them held.
    pub fn new(key_assigns: PlayerKeyAssigns) -> (controller: Self)
        ensures
            controller.key_assigns() == key_assigns,
            controller.counters() == (RepeatCounters { left: 0, right: 0, down: 0 }),
    {
        PlayerController {
            left_key: key_assigns.left_key,
            right_key: key_assigns.right_key,
            down_key: key_assigns.down_key,
            rotate_key: key_assigns.rotate_key,
            counter_rotate_key: key_assigns.counter_rotate_key,
            hard_drop_key: key_assigns.hard_drop_key,
            hold_key: key_assigns.hold_key,
            pause_key: key_assigns.pause_key,
            repeat_counter_left: 0,
            repeat_counter_right: 0,
            repeat_counter_down: 0,
        }
    }

    /// Asks the keyboard for the state of this player's keys. How long a key
    /// has been held is only asked of keys that are held.
    pub fn read_keys(&self, key_input: &dyn KeyInput) -> (keys: KeyFrame)
        ensures
            !keys.left_press ==> keys.left_elapsed_nanos == 0,
            !keys.right_press ==> keys.right_elapsed_nanos == 0,
            !keys.down_press ==> keys.down_elapsed_nanos == 0,
    {
        let left_press = key_input.is_press(&self.left_key);
        let right_press = key_input.is_press(&self.right_key);
        let down_press = key_input.is_press(&self.down_key);
        KeyFrame {
            left_down: key_input.is_down(&self.left_key),
            left_press,
            left_elapsed_nanos: held_nanos(key_input, &self.left_key, left_press),
            right_down: key_input.is_down(&self.right_key),
            right_press,
            right_elapsed_nanos: held_nanos(key_input, &self.right_key, right_press),
            down_press,
            down_elapsed_nanos: held_nanos(key_input, &self.down_key, down_press),
            rotate_down: key_input.is_down(&self.rotate_key),
            counter_rotate_down: key_input.is_down(&self.counter_rotate_key),
            hard_drop_down: key_input.is_down(&self.hard_drop_key),
            hold_down: key_input.is_down(&self.hold_key),
        }
    }

    /// Makes the moves that the keys of one frame ask for, the hold left
    /// aside, and counts them.
    fn move_by_keys(
        &mut self,
        keys: &KeyFrame,
        target: &mut ControlBlock,
        field: &Field,
        drop_time_ms: u128,
        auto_drop_count: u32,
    ) -> (moves: i32)
        ensures
            final(self).key_assigns() == old(self).key_assigns(),
            final(self).counters() == keys_applied(
                old(target)@,
                field@,
                *keys,
                old(self).counters(),
                drop_time_ms,
                auto_drop_count,
            ).counters,
            final(target)@ == keys_applied(
                old(target)@,
                field@,
                *keys,
                old(self).counters(),
                drop_time_ms,
                auto_drop_count,
            ).piece,
            moves == keys_applied(
                old(target)@,
                field@,
                *keys,
                old(self).counters(),
                drop_time_ms,
                auto_drop_count,
            ).moves,
    {
        let left_repeats = horizontal_due(keys.left_press, keys.left_elapsed_nanos, self.repeat_counter_left);
        let right_repeats = horizontal_due(
            keys.right_press,
            keys.right_elapsed_nanos,
            self.repeat_counter_right,
        );
        let down_repeats = soft_drop_due(
            keys.down_press,
            keys.down_elapsed_nanos,
            drop_time_ms,
            self.repeat_counter_down,
            auto_drop_count,
        );
        self.repeat_counter_left = next_counter(keys.left_press, self.repeat_counter_left, left_repeats);
        self.repeat_counter_right = next_counter(keys.right_press, self.repeat_counter_right, right_repeats);
        self.repeat_counter_down = next_counter(keys.down_press, self.repeat_counter_down, down_repeats);
        let to_left = side_step(target, field, -1, keys.left_down, left_repeats);
        let to_right = side_step(target, field, 1, keys.right_down, right_repeats);
        let _ = repeat_shift(target, field, 0, 1, down_repeats);
        let turns = turn_by_keys(target, field, keys);
        let total = to_left + to_right + turns;
        if total > i32::MAX as u64 {
            i32::MAX
        } else {
            total as i32
        }
    }

    /// Moves the piece as the keys of one frame ask: first the moves of
    /// `keys_applied`, then, where the hold key went down, the hold, whose
    /// report takes the place of the count of moves.
    pub fn apply_keys(
        &mut self,
        keys: &KeyFrame,
        target: &mut ControlBlock,
        hold_block: &mut HoldBlock,
        field: &Field,
        next_blocks: &mut NextBlocks,
        drop_time_ms: u128,
        auto_drop_count: u32,
    ) -> (signal: i32)
        ensures
            final(self).key_assigns() == old(self).key_assigns(),
            player_moved(
                *keys,
                old(self).counters(),
                old(target)@,
                old(hold_block)@,
                old(next_blocks).queue(),
                field@,
                drop_time_ms,
                auto_drop_count,
                final(self).counters(),
                final(target)@,
                final(hold_block)@,
                final(next_blocks).queue(),
                signal as int,
            ),
    {
        let moves = self.move_by_keys(keys, target, field, drop_time_ms, auto_drop_count);
        if keys.hold_down {
            return apply_hold(target, hold_block, next_blocks);
        }
        moves
    }
}

impl PlayController for PlayerController {
    /// Reads this player's keys and moves the piece as they ask. What
    /// becomes of the piece is what `apply_keys` makes of the keys that the
    /// keyboard reported.
    fn control(
        &mut self,
        key_input: &dyn KeyInput,
        target: &mut ControlBlock,
        hold_block: &mut HoldBlock,
        field: &Field,
        next_blocks: &mut NextBlocks,
        drop_time_ms: u128,
        auto_drop_count: u32,
    ) -> (signal: i32)
        ensures
            final(self).key_assigns() == old(self).key_assigns(),
            exists|keys: KeyFrame|
                player_moved(
                    keys,
                    old(self).counters(),
                    old(target)@,
                    old(hold_block)@,
                    old(next_blocks).queue(),
                    field@,
                    drop_time_ms,
                    auto_drop_count,
                    final(self).counters(),
                    final(target)@,
                    final(hold_block)@,
                    final(next_blocks).queue(),
                    signal as int,
                ),
    {
        let keys = self.read_keys(key_input);
        self.apply_keys(&keys, target, hold_block, field, next_blocks, drop_time_ms, auto_drop_count)
    }

    /// Whether the pause key is held. The answer is the keyboard's, handed
    /// on as it is.
    fn is_pause_requested(&self, key_input: &dyn KeyInput) -> bool {
        key_input.is_press(&self.pause_key)
    }
}

/// For how many nanoseconds a key has been held; 0, without asking the
/// keyboard, for a key that is not held.
fn held_nanos(key_input: &dyn KeyInput, key: &KeyCode, press: bool) -> (nanos: u128)
    ensures
        !press ==> nanos == 0,
{
    if press {
        duration_nanos(&key_input.calc_elapsed(key))
    } else {
        0
    }
}

} // verus!
