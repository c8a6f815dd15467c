use falling_blocks::gameplay::block::block_datas::{block_start_position, BlockType};
use falling_blocks::gameplay::block::control_block::ControlBlock;
use falling_blocks::gameplay::field::Field;
use falling_blocks::gameplay::t_spin_checker::{TSpinChecker, TSpinType};
use falling_blocks::utility::grid::Grid;

const E: BlockType = BlockType::Empty;
const X: BlockType = BlockType::Attacked;
const T: BlockType = BlockType::T;

fn window(top_left: bool, top_right: bool, bottom_left: bool, bottom_right: bool) -> Vec<Vec<BlockType>> {
    let cell = |taken: bool| if taken { X } else { E };
    vec![
        vec![cell(top_left), E, cell(top_right)],
        vec![E, E, E],
        vec![cell(bottom_left), E, cell(bottom_right)],
    ]
}

/// A T that was just turned to point down, at the place it was before.
fn turned_down() -> (TSpinChecker, ControlBlock) {
    let field = Field::new();
    let mut piece = ControlBlock::new();
    piece.apply_block(T, block_start_position());
    assert!(piece.rotate(&field));
    let mut checker = TSpinChecker::new();
    checker.set_block_data(&piece);
    assert!(!checker.check_t_spinned(&piece));
    assert!(piece.rotate(&field));
    assert_eq!(piece.block, vec![vec![E, E, E], vec![T, T, T], vec![E, T, E]]);
    assert!(checker.check_t_spinned(&piece));
    (checker, piece)
}

#[test]
fn t_spin_full_when_both_corners_beside_the_arm_are_taken() {
    let (checker, piece) = turned_down();
    assert!(checker.calc_t_spin_type(&piece, &window(true, false, true, true)) == TSpinType::Full);
    assert!(checker.calc_t_spin_type(&piece, &window(false, true, true, true)) == TSpinType::Full);
    assert!(checker.calc_t_spin_type(&piece, &window(true, true, true, true)) == TSpinType::Full);
}

#[test]
fn t_spin_mini_when_one_corner_beside_the_arm_is_free() {
    let (checker, piece) = turned_down();
    assert!(checker.calc_t_spin_type(&piece, &window(true, true, true, false)) == TSpinType::Mini);
    assert!(checker.calc_t_spin_type(&piece, &window(true, true, false, true)) == TSpinType::Mini);
}

#[test]
fn no_t_spin_with_two_corners() {
    let (checker, piece) = turned_down();
    assert!(checker.calc_t_spin_type(&piece, &window(false, false, true, true)) == TSpinType::NoSpin);
    assert!(checker.calc_t_spin_type(&piece, &window(true, true, false, false)) == TSpinType::NoSpin);
    assert!(checker.calc_t_spin_type(&piece, &window(true, false, false, true)) == TSpinType::NoSpin);
    assert!(checker.calc_t_spin_type(&piece, &window(false, false, false, false)) == TSpinType::NoSpin);
}

#[test]
fn t_spin_directions_pick_their_corners() {
    let field = Field::new();
    let mut piece = ControlBlock::new();
    piece.apply_block(T, block_start_position());
    let mut checker = TSpinChecker::new();
    checker.set_block_data(&piece);
    // Pointing up: the top corners decide.
    assert!(checker.calc_t_spin_type(&piece, &window(true, true, true, false)) == TSpinType::Full);
    assert!(checker.calc_t_spin_type(&piece, &window(true, false, true, true)) == TSpinType::Mini);
    // Pointing right: the right corners decide.
    assert!(piece.rotate(&field));
    checker.set_block_data(&piece);
    assert!(checker.calc_t_spin_type(&piece, &window(false, true, true, true)) == TSpinType::Full);
    assert!(checker.calc_t_spin_type(&piece, &window(true, false, true, true)) == TSpinType::Mini);
    // Pointing left: the left corners decide.
    assert!(piece.rotate(&field));
    assert!(piece.rotate(&field));
    checker.set_block_data(&piece);
    assert!(checker.calc_t_spin_type(&piece, &window(true, false, true, true)) == TSpinType::Full);
    assert!(checker.calc_t_spin_type(&piece, &window(true, true, false, true)) == TSpinType::Mini);
}

#[test]
fn the_last_kick_makes_a_full_t_spin() {
    let (mut checker, mut piece) = turned_down();
    checker.set_block_data(&piece);
    piece.position = Grid::new(piece.position.x + 1, piece.position.y + 2);
    assert!(checker.calc_t_spin_type(&piece, &window(true, true, true, false)) == TSpinType::Full);
    checker.set_block_data(&piece);
    piece.position = Grid::new(piece.position.x - 1, piece.position.y + 2);
    assert!(checker.calc_t_spin_type(&piece, &window(true, true, false, true)) == TSpinType::Full);
    checker.set_block_data(&piece);
    piece.position = Grid::new(piece.position.x - 1, piece.position.y + 1);
    assert!(checker.calc_t_spin_type(&piece, &window(true, true, false, true)) == TSpinType::Mini);
    // Even the last kick needs three corners.
    checker.set_block_data(&piece);
    piece.position = Grid::new(piece.position.x + 1, piece.position.y + 2);
    assert!(checker.calc_t_spin_type(&piece, &window(true, false, false, true)) == TSpinType::NoSpin);
}

#[test]
fn a_box_full_of_t_is_no_t() {
    let checker = TSpinChecker::new();
    let mut piece = ControlBlock::new();
    piece.apply_block(T, block_start_position());
    piece.block = vec![vec![T, T, T], vec![T, T, T], vec![T, T, T]];
    assert!(checker.calc_t_spin_type(&piece, &window(true, true, true, true)) == TSpinType::NoSpin);
}

#[test]
fn only_a_t_is_put_on_record() {
    let field = Field::new();
    let mut checker = TSpinChecker::new();
    let mut bar = ControlBlock::new();
    bar.apply_block(BlockType::I, block_start_position());
    checker.set_block_data(&bar);
    assert!(bar.rotate(&field));
    assert!(!checker.check_t_spinned(&bar));
    let mut piece = ControlBlock::new();
    piece.apply_block(T, block_start_position());
    // The record still holds the starting shape of the T.
    assert!(!checker.check_t_spinned(&piece));
    assert!(piece.left(&field));
    assert!(!checker.check_t_spinned(&piece));
    assert!(piece.counter_rotate(&field));
    assert!(checker.check_t_spinned(&piece));
    checker.set_block_data(&piece);
    assert!(!checker.check_t_spinned(&piece));
}
