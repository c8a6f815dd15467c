use falling_blocks::gameplay::block::block_datas::{block_start_position, BlockType};
use falling_blocks::gameplay::block::control_block::ControlBlock;
use falling_blocks::gameplay::block::hold_block::HoldBlock;
use falling_blocks::gameplay::block::next_blocks::NextBlocks;
use falling_blocks::gameplay::controller::{
    apply_hold, ComputerController, KeyFrame, PlayController, PlayerController, PlayerKeyAssigns,
    HARD_DROP_MOVE_COUNT, HOLD_USING,
};
use falling_blocks::gameplay::field::Field;
use falling_blocks::gameplay::key_input::{KeyCode, KeyInput};
use falling_blocks::utility::grid::Grid;
use std::time::Duration;

struct FakeKeys {
    down: Vec<KeyCode>,
    press: Vec<KeyCode>,
    held_for: Duration,
}

impl KeyInput for FakeKeys {
    fn poll_input(&mut self) -> Result<(), std::io::Error> {
        Ok(())
    }
    fn is_press(&self, key: &KeyCode) -> bool {
        self.press.contains(key)
    }
    fn is_down(&self, key: &KeyCode) -> bool {
        self.down.contains(key)
    }
    fn is_up(&self, _key: &KeyCode) -> bool {
        false
    }
    fn calc_elapsed(&self, key: &KeyCode) -> Duration {
        if self.press.contains(key) {
            self.held_for
        } else {
            Duration::from_secs(0)
        }
    }
}

fn no_keys() -> KeyFrame {
    KeyFrame {
        left_down: false,
        left_press: false,
        left_elapsed_nanos: 0,
        right_down: false,
        right_press: false,
        right_elapsed_nanos: 0,
        down_press: false,
        down_elapsed_nanos: 0,
        rotate_down: false,
        counter_rotate_down: false,
        hard_drop_down: false,
        hold_down: false,
    }
}

struct Table {
    player: PlayerController,
    piece: ControlBlock,
    hold: HoldBlock,
    field: Field,
    next: NextBlocks,
}

fn table(kind: BlockType) -> Table {
    let mut piece = ControlBlock::new();
    piece.apply_block(kind, block_start_position());
    Table {
        player: PlayerController::new(PlayerKeyAssigns::player1_keys()),
        piece,
        hold: HoldBlock::new(),
        field: Field::new(),
        next: NextBlocks::new(),
    }
}

fn play(t: &mut Table, keys: &KeyFrame, auto_drop_count: u32) -> i32 {
    t.player.apply_keys(keys, &mut t.piece, &mut t.hold, &t.field, &mut t.next, 1000, auto_drop_count)
}

const MS: u128 = 1_000_000;

#[test]
fn keys_move_the_piece_and_count_the_moves() {
    let mut t = table(BlockType::T);
    assert_eq!(play(&mut t, &no_keys(), 0), 0);
    assert_eq!(t.piece.position, Grid::new(2, 18));
    assert_eq!(play(&mut t, &KeyFrame { left_down: true, ..no_keys() }, 0), 1);
    assert_eq!(t.piece.position, Grid::new(1, 18));
    assert_eq!(play(&mut t, &KeyFrame { right_down: true, ..no_keys() }, 0), 1);
    assert_eq!(play(&mut t, &KeyFrame { left_down: true, right_down: true, ..no_keys() }, 0), 2);
    assert_eq!(t.piece.position, Grid::new(2, 18));
    assert_eq!(play(&mut t, &KeyFrame { rotate_down: true, counter_rotate_down: true, ..no_keys() }, 0), 2);
    assert_eq!(t.piece.position, Grid::new(2, 18));
    assert_eq!(
        play(&mut t, &KeyFrame { left_down: true, hard_drop_down: true, ..no_keys() }, 0),
        1 + HARD_DROP_MOVE_COUNT
    );
    assert_eq!(t.piece.position, Grid::new(1, 34));
    // Against the wall a step fails and does not count.
    let mut wall = table(BlockType::T);
    wall.piece.position.x = 0;
    assert_eq!(play(&mut wall, &KeyFrame { left_down: true, ..no_keys() }, 0), 0);
    assert_eq!(wall.piece.position, Grid::new(0, 18));
}

#[test]
fn a_held_key_repeats_after_the_delay() {
    let mut t = table(BlockType::T);
    t.piece.position.x = 7;
    let held = |ms: u128| KeyFrame { left_press: true, left_elapsed_nanos: ms * MS, ..no_keys() };
    assert_eq!(play(&mut t, &held(300), 0), 0);
    assert_eq!(play(&mut t, &held(349), 0), 0);
    assert_eq!(play(&mut t, &held(350), 0), 1);
    assert_eq!(t.piece.position.x, 6);
    assert_eq!(play(&mut t, &held(399), 0), 0);
    assert_eq!(play(&mut t, &held(500), 0), 3);
    assert_eq!(t.piece.position.x, 3);
    // An earlier time owes nothing.
    assert_eq!(play(&mut t, &held(400), 0), 0);
    // The wall stops the piece; the repeats are used up all the same.
    assert_eq!(play(&mut t, &held(1300), 0), 3);
    assert_eq!(t.piece.position.x, 0);
    assert_eq!(play(&mut t, &held(1300), 0), 0);
    // Releasing the key starts the count anew.
    assert_eq!(play(&mut t, &no_keys(), 0), 0);
    t.piece.position.x = 7;
    assert_eq!(play(&mut t, &held(400), 0), 2);
    assert_eq!(t.piece.position.x, 5);

    let mut r = table(BlockType::T);
    let right = KeyFrame { right_press: true, right_elapsed_nanos: 420 * MS, ..no_keys() };
    assert_eq!(play(&mut r, &right, 0), 2);
    assert_eq!(r.piece.position.x, 4);
}

#[test]
fn the_down_key_drops_faster_than_gravity() {
    let mut t = table(BlockType::T);
    let held = |ms: u128| KeyFrame { down_press: true, down_elapsed_nanos: ms * MS, ..no_keys() };
    assert_eq!(play(&mut t, &held(49), 0), 0);
    assert_eq!(t.piece.position.y, 18);
    assert_eq!(play(&mut t, &held(100), 0), 0);
    assert_eq!(t.piece.position.y, 20);
    // One more row is owed, and gravity has already moved the piece by one.
    assert_eq!(play(&mut t, &held(150), 1), 0);
    assert_eq!(t.piece.position.y, 20);
    // Five rows are owed by now, two were given, one is left to gravity.
    assert_eq!(play(&mut t, &held(250), 1), 0);
    assert_eq!(t.piece.position.y, 22);
    // A drop time of zero owes nothing.
    let mut z = table(BlockType::T);
    let keys = held(1000);
    assert_eq!(z.player.apply_keys(&keys, &mut z.piece, &mut z.hold, &z.field, &mut z.next, 0, 0), 0);
    assert_eq!(z.piece.position.y, 18);
}

#[test]
fn the_hold_key_swaps_the_piece() {
    let mut t = table(BlockType::T);
    let first_to_come = t.next.show_next_block(0);
    let second_to_come = t.next.show_next_block(1);
    let hold = KeyFrame { hold_down: true, left_down: true, ..no_keys() };
    assert_eq!(play(&mut t, &hold, 0), HOLD_USING);
    assert_eq!(t.hold.get_holding_block(), BlockType::T);
    assert_eq!(t.piece.block_type, first_to_come);
    assert_eq!(t.piece.position, Grid::new(2, 18));
    assert_eq!(t.next.show_next_block(0), second_to_come);
    // A second hold is refused: the keys count as usual.
    assert_eq!(play(&mut t, &hold, 0), 0);
    assert_eq!(t.hold.get_holding_block(), BlockType::T);
    assert_eq!(t.piece.block_type, first_to_come);
    assert_eq!(t.piece.position, Grid::new(1, 18));
    t.hold.allow_hold();
    assert_eq!(play(&mut t, &KeyFrame { hold_down: true, ..no_keys() }, 0), HOLD_USING);
    assert_eq!(t.hold.get_holding_block(), first_to_come);
    assert_eq!(t.piece.block_type, BlockType::T);
    assert_eq!(t.next.show_next_block(0), second_to_come);
}

#[test]
fn apply_hold_reports_what_it_did() {
    let mut t = table(BlockType::J);
    assert_eq!(apply_hold(&mut t.piece, &mut t.hold, &mut t.next), HOLD_USING);
    assert!(!t.hold.can_hold());
    assert_eq!(apply_hold(&mut t.piece, &mut t.hold, &mut t.next), 0);
    assert_eq!(t.hold.get_holding_block(), BlockType::J);
}

#[test]
fn the_player_reads_the_keyboard() {
    let mut t = table(BlockType::T);
    let keys = FakeKeys {
        down: vec![KeyCode::Left, KeyCode::Up],
        press: vec![KeyCode::Left, KeyCode::Esc],
        held_for: Duration::from_millis(410),
    };
    let frame = t.player.read_keys(&keys);
    assert!(frame.left_down && frame.left_press && frame.rotate_down);
    assert!(!frame.right_down && !frame.right_press && !frame.down_press);
    assert!(!frame.counter_rotate_down && !frame.hard_drop_down && !frame.hold_down);
    assert_eq!(frame.left_elapsed_nanos, 410 * MS);
    assert_eq!(frame.right_elapsed_nanos, 0);
    let moves = t.player.control(&keys, &mut t.piece, &mut t.hold, &t.field, &mut t.next, 1000, 0);
    // One step and two repeats, of which the wall stops the last, and one
    // turn.
    assert_eq!(moves, 3);
    assert_eq!(t.piece.position.x, 0);
    assert!(t.player.is_pause_requested(&keys));
    assert!(t.player.is_player_exists());
    let second = PlayerController::new(PlayerKeyAssigns::player2_keys());
    assert!(!second.is_pause_requested(&keys));
    let drop = FakeKeys { down: vec![KeyCode::Char(';')], press: vec![KeyCode::Char('p')], held_for: Duration::from_millis(0) };
    assert!(second.read_keys(&drop).hard_drop_down);
    assert!(second.is_pause_requested(&drop));
}

#[test]
fn the_computer_aims_for_the_lowest_place() {
    let keys = FakeKeys { down: vec![], press: vec![], held_for: Duration::from_millis(0) };
    let mut t = table(BlockType::I);
    let mut computer = ComputerController::new();
    assert!(!computer.is_player_exists());
    assert!(!computer.is_pause_requested(&keys));
    computer.plan(&BlockType::I, &BlockType::I, &t.field);
    let mut reports = Vec::new();
    for _ in 0..200 {
        let signal = computer.control(&keys, &mut t.piece, &mut t.hold, &t.field, &mut t.next, 1000, 0);
        reports.push(signal);
        if signal >= HARD_DROP_MOVE_COUNT {
            break;
        }
    }
    // Ten frames of waiting, then one move every eleventh frame: two steps
    // to the left, then the drop.
    assert_eq!(reports.len(), 33);
    assert_eq!(reports.iter().filter(|s| **s == 1).count(), 2);
    assert_eq!(reports[10], 1);
    assert_eq!(reports[21], 1);
    assert_eq!(reports[32], HARD_DROP_MOVE_COUNT);
    assert!(reports.iter().enumerate().all(|(i, s)| *s == 0 || i % 11 == 10));
    assert_eq!(t.piece.position, Grid::new(0, 34));
}

#[test]
fn the_computer_turns_when_that_is_lower() {
    let keys = FakeKeys { down: vec![], press: vec![], held_for: Duration::from_millis(0) };
    // From the top row a T can only fall with its flat side up.
    let mut t = table(BlockType::T);
    let mut computer = ComputerController::new();
    computer.plan(&BlockType::T, &BlockType::Empty, &t.field);
    let mut reports = Vec::new();
    for _ in 0..400 {
        let signal = computer.control(&keys, &mut t.piece, &mut t.hold, &t.field, &mut t.next, 1000, 0);
        if signal != 0 {
            reports.push(signal);
        }
        if signal >= HARD_DROP_MOVE_COUNT {
            break;
        }
    }
    // Two turns, two steps to the left, the drop.
    assert_eq!(reports, vec![1, 1, 1, 1, HARD_DROP_MOVE_COUNT]);
    assert_eq!(
        t.piece.block,
        vec![
            vec![BlockType::Empty, BlockType::Empty, BlockType::Empty],
            vec![BlockType::T, BlockType::T, BlockType::T],
            vec![BlockType::Empty, BlockType::T, BlockType::Empty],
        ]
    );
    assert_eq!(t.piece.position, Grid::new(0, 33));
    assert_eq!(t.hold.get_holding_block(), BlockType::Empty);
}

#[test]
fn the_computer_holds_when_that_is_lower() {
    let keys = FakeKeys { down: vec![], press: vec![], held_for: Duration::from_millis(0) };
    let mut t = table(BlockType::T);
    t.hold.hold(BlockType::I);
    t.hold.allow_hold();
    let mut computer = ComputerController::new();
    computer.plan(&BlockType::T, &BlockType::I, &t.field);
    let mut reports = Vec::new();
    for _ in 0..400 {
        let signal = computer.control(&keys, &mut t.piece, &mut t.hold, &t.field, &mut t.next, 1000, 0);
        if signal != 0 {
            reports.push(signal);
        }
        if signal >= HARD_DROP_MOVE_COUNT {
            break;
        }
    }
    // The hold, two steps to the left, the drop.
    assert_eq!(reports, vec![HOLD_USING, 1, 1, HARD_DROP_MOVE_COUNT]);
    assert_eq!(t.piece.block_type, BlockType::I);
    assert_eq!(t.hold.get_holding_block(), BlockType::T);
    assert_eq!(t.piece.position, Grid::new(0, 34));
}

#[test]
fn the_computer_drops_when_its_hold_is_refused() {
    let keys = FakeKeys { down: vec![], press: vec![], held_for: Duration::from_millis(0) };
    let mut t = table(BlockType::T);
    t.hold.hold(BlockType::I);
    let mut computer = ComputerController::new();
    computer.plan(&BlockType::T, &BlockType::I, &t.field);
    let mut signal = 0;
    for _ in 0..11 {
        signal = computer.control(&keys, &mut t.piece, &mut t.hold, &t.field, &mut t.next, 1000, 0);
    }
    assert_eq!(signal, HARD_DROP_MOVE_COUNT);
    assert_eq!(t.piece.block_type, BlockType::T);
    assert_eq!(t.piece.position, Grid::new(2, 34));
    assert_eq!(t.hold.get_holding_block(), BlockType::I);
}

#[test]
fn the_computer_keeps_its_plan_when_nothing_fits() {
    let keys = FakeKeys { down: vec![], press: vec![], held_for: Duration::from_millis(0) };
    let mut t = table(BlockType::T);
    for y in 0..34 {
        for x in 0..10 {
            t.field.lock_block(&vec![vec![BlockType::Attacked]], &Grid::new(x, y));
        }
    }
    let mut computer = ComputerController::new();
    computer.plan(&BlockType::T, &BlockType::I, &t.field);
    let mut signal = 0;
    for _ in 0..11 {
        signal = computer.control(&keys, &mut t.piece, &mut t.hold, &t.field, &mut t.next, 1000, 0);
    }
    // The plan still says column 0 without a turn: the piece steps left.
    assert_eq!(signal, 1);
}

/// A keyboard that claims every key has been held for a while, whether it
/// is held or not.
struct Stuck {
    press: Vec<KeyCode>,
}

impl KeyInput for Stuck {
    fn poll_input(&mut self) -> Result<(), std::io::Error> {
        Ok(())
    }
    fn is_press(&self, key: &KeyCode) -> bool {
        self.press.contains(key)
    }
    fn is_down(&self, _key: &KeyCode) -> bool {
        false
    }
    fn is_up(&self, _key: &KeyCode) -> bool {
        false
    }
    fn calc_elapsed(&self, _key: &KeyCode) -> Duration {
        Duration::from_millis(7)
    }
}

#[test]
fn only_held_keys_are_asked_how_long() {
    let player = PlayerController::new(PlayerKeyAssigns::player1_keys());
    let none = player.read_keys(&Stuck { press: vec![] });
    assert_eq!(none.left_elapsed_nanos, 0);
    assert_eq!(none.right_elapsed_nanos, 0);
    assert_eq!(none.down_elapsed_nanos, 0);
    let left = player.read_keys(&Stuck { press: vec![KeyCode::Left] });
    assert!(left.left_press);
    assert_eq!(left.left_elapsed_nanos, 7 * MS);
    assert_eq!(left.right_elapsed_nanos, 0);
    assert_eq!(left.down_elapsed_nanos, 0);
    let others = player.read_keys(&Stuck { press: vec![KeyCode::Right, KeyCode::Down] });
    assert_eq!(others.left_elapsed_nanos, 0);
    assert_eq!(others.right_elapsed_nanos, 7 * MS);
    assert_eq!(others.down_elapsed_nanos, 7 * MS);
}
