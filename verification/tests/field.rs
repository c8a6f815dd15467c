use falling_blocks::gameplay::block::block_datas::{block_shape, block_start_position, BlockType};
use falling_blocks::gameplay::block::control_block::ControlBlock;
use falling_blocks::gameplay::field::{Field, FIELD_HEIGHT_WITH_OUTSIDE, FIELD_WIDTH};
use falling_blocks::gameplay::score_calculator::{
    AttackPowerCalculator, ScoreCalculator, SimpleAttackPowerCalculator, SimpleScoreCalculator,
};
use falling_blocks::gameplay::t_spin_checker::TSpinType;
use falling_blocks::utility::grid::Grid;

fn put(field: &mut Field, x: usize, y: usize, kind: BlockType) {
    field.lock_block(&vec![vec![kind]], &Grid::new(x as i32, y as i32));
}

fn row_of(field: &Field, y: usize) -> Vec<BlockType> {
    (0..FIELD_WIDTH).map(|x| field.get_grid_data(&Grid::new(x as i32, y as i32))).collect()
}

#[test]
fn test_field_creation() {
    let field = Field::new();
    for y in 0..FIELD_HEIGHT_WITH_OUTSIDE {
        for x in 0..FIELD_WIDTH {
            assert_eq!(field.get_grid_data(&Grid { x: x as i32, y: y as i32 }), BlockType::Empty);
        }
    }
}

#[test]
fn test_lock_and_get_grid_data() {
    let mut field = Field::new();
    let block_shape = block_shape(BlockType::I);
    let position = Grid { x: 3, y: 2 };
    field.lock_block(&block_shape, &position);
    assert_eq!(field.get_grid_data(&Grid { x: 3, y: 1 }), BlockType::I);
    assert_eq!(field.get_grid_data(&Grid { x: 4, y: 1 }), BlockType::I);
    assert_eq!(field.get_grid_data(&Grid { x: 5, y: 1 }), BlockType::I);
}

#[test]
fn test_clear_lines() {
    let mut field = Field::new();
    let last_y = FIELD_HEIGHT_WITH_OUTSIDE - 1;
    for x in 0..FIELD_WIDTH {
        put(&mut field, x, last_y, BlockType::I);
    }
    let cleared_lines = field.clear_lines();
    assert_eq!(cleared_lines, 1);
    for x in 0..FIELD_WIDTH {
        assert_eq!(field.get_grid_data(&Grid { x: x as i32, y: last_y as i32 }), BlockType::Empty);
    }
}

#[test]
fn test_drop_lines() {
    let mut field = Field::new();
    let last_y = FIELD_HEIGHT_WITH_OUTSIDE - 1;
    for x in 0..FIELD_WIDTH {
        put(&mut field, x, last_y - 1, BlockType::I);
    }
    field.drop_lines();
    for x in 0..FIELD_WIDTH {
        assert_eq!(field.get_grid_data(&Grid { x: x as i32, y: last_y as i32 }), BlockType::I);
        assert_eq!(field.get_grid_data(&Grid { x: x as i32, y: last_y as i32 - 1 }), BlockType::Empty);
    }
}

#[test]
fn test_calc_score() {
    let calculator = SimpleScoreCalculator::new();
    assert_eq!(calculator.calc(4, TSpinType::Full, 0), 1200);
}

#[test]
fn test_calc_attack_power() {
    let calculator = SimpleAttackPowerCalculator::new();
    assert_eq!(calculator.calc(2, TSpinType::Full, 2), 2);
}

#[test]
fn score_is_a_hundred_per_line_times_the_spin() {
    let calculator = SimpleScoreCalculator::new();
    assert_eq!(calculator.calc(0, TSpinType::Full, 5), 0);
    assert_eq!(calculator.calc(1, TSpinType::NoSpin, 0), 100);
    assert_eq!(calculator.calc(1, TSpinType::NoSpin, 9), 100);
    assert_eq!(calculator.calc(3, TSpinType::Mini, 0), 600);
    assert_eq!(calculator.calc(3, TSpinType::Full, 0), 900);
    assert_eq!(calculator.calc(u32::MAX, TSpinType::Full, 0), u32::MAX as u64 * 300);
    let attack = SimpleAttackPowerCalculator::new();
    assert_eq!(attack.calc(0, TSpinType::NoSpin, 0), 0);
    assert_eq!(attack.calc(3, TSpinType::Mini, 7), 3);
}

#[test]
fn positions_outside_the_field() {
    let field = Field::new();
    assert!(field.check_position_in_field(&Grid::new(0, 0)));
    assert!(field.check_position_in_field(&Grid::new(9, 33)));
    assert!(!field.check_position_in_field(&Grid::new(-1, 0)));
    assert!(!field.check_position_in_field(&Grid::new(10, 0)));
    assert!(!field.check_position_in_field(&Grid::new(0, -1)));
    assert!(!field.check_position_in_field(&Grid::new(0, 34)));
    assert_eq!(field.get_grid_data(&Grid::new(-1, 5)), BlockType::Empty);
    assert_eq!(field.get_grid_data(&Grid::new(3, 34)), BlockType::Empty);
    assert_eq!(field.get_grid_data(&Grid::new(i32::MAX, i32::MIN)), BlockType::Empty);
    let all = field.get_all_grid_data();
    assert_eq!(all.len(), 34);
    assert!(all.iter().all(|row| row.len() == 10));
}

#[test]
fn a_spawned_piece_does_not_collide_on_an_empty_field() {
    let field = Field::new();
    for kind in [
        BlockType::I,
        BlockType::O,
        BlockType::T,
        BlockType::S,
        BlockType::Z,
        BlockType::J,
        BlockType::L,
    ] {
        let mut piece = ControlBlock::new();
        piece.apply_block(kind, block_start_position());
        assert_eq!(piece.position, Grid::new(2, 18));
        assert!(!field.check_collision(&piece.block, &piece.position));
        assert!(!field.check_game_over(&kind));
    }
    assert!(!field.check_game_over(&BlockType::Empty));
    assert!(!field.check_game_over(&BlockType::Attacked));
}

#[test]
fn collision_with_walls_and_blocks() {
    let mut field = Field::new();
    let bar = block_shape(BlockType::I);
    assert!(!field.check_collision(&bar, &Grid::new(0, 1)));
    assert!(field.check_collision(&bar, &Grid::new(-1, 1)));
    assert!(!field.check_collision(&bar, &Grid::new(7, 1)));
    assert!(field.check_collision(&bar, &Grid::new(8, 1)));
    assert!(field.check_collision(&bar, &Grid::new(0, 0)));
    assert!(!field.check_collision(&bar, &Grid::new(0, 34)));
    assert!(field.check_collision(&bar, &Grid::new(0, 35)));
    put(&mut field, 4, 20, BlockType::T);
    assert!(field.check_collision(&bar, &Grid::new(2, 21)));
    assert!(field.check_collision(&bar, &Grid::new(4, 21)));
    assert!(!field.check_collision(&bar, &Grid::new(5, 21)));
    assert!(!field.check_collision(&bar, &Grid::new(2, 20)));
    // A shape without a block collides with nothing, wherever it is.
    assert!(!field.check_collision(&block_shape(BlockType::Empty), &Grid::new(-5, 99)));
    assert!(!field.check_collision(&vec![], &Grid::new(i32::MIN, i32::MAX)));
    assert!(field.check_collision(&bar, &Grid::new(i32::MAX, i32::MAX)));
}

#[test]
fn ghost_position_is_where_the_piece_lands() {
    let mut field = Field::new();
    let bar = block_shape(BlockType::I);
    assert_eq!(field.get_ghost_position(&bar, &Grid::new(2, 18)), Grid::new(2, 34));
    put(&mut field, 3, 30, BlockType::T);
    assert_eq!(field.get_ghost_position(&bar, &Grid::new(2, 18)), Grid::new(2, 30));
    assert_eq!(field.get_ghost_position(&bar, &Grid::new(4, 18)), Grid::new(4, 34));
    // From a place where the piece already rests nothing moves.
    assert_eq!(field.get_ghost_position(&bar, &Grid::new(2, 30)), Grid::new(2, 30));
    // A shape without a block stays where it is.
    assert_eq!(
        field.get_ghost_position(&block_shape(BlockType::Empty), &Grid::new(1, 2)),
        Grid::new(1, 2)
    );
    assert_eq!(field.get_ghost_position(&vec![], &Grid::new(1, 2)), Grid::new(1, 2));
}

#[test]
fn locking_outside_the_field_ends_the_game() {
    let mut field = Field::new();
    assert!(!field.check_game_over(&BlockType::T));
    field.lock_block(&block_shape(BlockType::T), &Grid::new(-1, 33));
    // One cell fell off the left edge, the others were written.
    assert_eq!(field.get_grid_data(&Grid::new(0, 32)), BlockType::T);
    assert_eq!(field.get_grid_data(&Grid::new(1, 32)), BlockType::T);
    assert_eq!(field.get_grid_data(&Grid::new(0, 31)), BlockType::T);
    assert!(!field.check_game_over(&BlockType::T));
    field.lock_block(&block_shape(BlockType::T), &Grid::new(20, 10));
    assert!(field.check_game_over(&BlockType::T));
    assert!(field.check_game_over(&BlockType::Empty));
    // The mark is sticky.
    field.clear_lines();
    field.drop_lines();
    field.lock_block(&block_shape(BlockType::T), &Grid::new(3, 33));
    assert!(field.check_game_over(&BlockType::Empty));
}

#[test]
fn a_piece_in_the_way_of_the_spawn_ends_the_game() {
    let mut field = Field::new();
    put(&mut field, 3, 17, BlockType::J);
    assert!(field.check_game_over(&BlockType::I));
    assert!(field.check_game_over(&BlockType::T));
    assert!(!field.check_game_over(&BlockType::Empty));
    let mut other = Field::new();
    put(&mut other, 2, 18, BlockType::J);
    assert!(!other.check_game_over(&BlockType::I));
}

#[test]
fn clearing_lines_twice_finds_nothing_the_second_time() {
    let mut field = Field::new();
    for y in [33usize, 31, 20] {
        for x in 0..FIELD_WIDTH {
            put(&mut field, x, y, BlockType::L);
        }
    }
    for x in 0..FIELD_WIDTH - 1 {
        put(&mut field, x, 32, BlockType::S);
    }
    assert_eq!(field.clear_lines(), 3);
    let after_first = field.get_all_grid_data();
    assert_eq!(field.clear_lines(), 0);
    assert_eq!(field.get_all_grid_data(), after_first);
    // The row that was not full is untouched, and nothing has moved.
    assert_eq!(row_of(&field, 32).iter().filter(|c| **c == BlockType::S).count(), 9);
    assert!(row_of(&field, 33).iter().all(|c| *c == BlockType::Empty));
    assert_eq!(Field::new().clear_lines(), 0);
}

#[test]
fn rows_fall_one_pass_at_a_time() {
    let mut field = Field::new();
    put(&mut field, 0, 30, BlockType::I);
    put(&mut field, 1, 33, BlockType::J);
    // Rows 31 and 32 are vacant under row 30.
    field.drop_lines();
    assert_eq!(field.get_grid_data(&Grid::new(0, 31)), BlockType::I);
    assert_eq!(field.get_grid_data(&Grid::new(0, 30)), BlockType::Empty);
    assert_eq!(field.get_grid_data(&Grid::new(1, 33)), BlockType::J);
    field.drop_lines();
    assert_eq!(field.get_grid_data(&Grid::new(0, 32)), BlockType::I);
    assert_eq!(field.get_grid_data(&Grid::new(0, 31)), BlockType::Empty);
    let settled = field.get_all_grid_data();
    field.drop_lines();
    assert_eq!(field.get_all_grid_data(), settled);
}

#[test]
fn garbage_rows_share_one_open_column() {
    for column in 0..FIELD_WIDTH {
        let mut field = Field::new();
        put(&mut field, 5, 33, BlockType::T);
        field.push_garbage(3, column);
        for y in 31..34 {
            let row = row_of(&field, y);
            for (x, cell) in row.iter().enumerate() {
                if x == column {
                    assert_eq!(*cell, BlockType::Empty);
                } else {
                    assert_eq!(*cell, BlockType::Attacked);
                }
            }
        }
        assert_eq!(field.get_grid_data(&Grid::new(5, 30)), BlockType::T);
        assert_eq!(row_of(&field, 30).iter().filter(|c| **c != BlockType::Empty).count(), 1);
        assert!(!field.check_game_over(&BlockType::Empty));
    }
}

#[test]
fn an_attack_on_an_empty_field() {
    for lines in [0usize, 1, 4, 34] {
        let mut field = Field::new();
        field.apply_attack(lines);
        let mut open = None;
        for y in 0..FIELD_HEIGHT_WITH_OUTSIDE {
            let row = row_of(&field, y);
            if y < FIELD_HEIGHT_WITH_OUTSIDE - lines {
                assert!(row.iter().all(|c| *c == BlockType::Empty));
            } else {
                let gaps: Vec<usize> =
                    (0..FIELD_WIDTH).filter(|x| row[*x] == BlockType::Empty).collect();
                assert_eq!(gaps.len(), 1);
                assert!(row.iter().all(|c| *c == BlockType::Empty || *c == BlockType::Attacked));
                if let Some(column) = open {
                    assert_eq!(gaps[0], column);
                }
                open = Some(gaps[0]);
            }
        }
        assert!(!field.check_game_over(&BlockType::Empty));
    }
}

#[test]
fn an_attack_that_pushes_blocks_out_ends_the_game() {
    let mut field = Field::new();
    put(&mut field, 2, 1, BlockType::Z);
    field.push_garbage(1, 0);
    assert_eq!(field.get_grid_data(&Grid::new(2, 0)), BlockType::Z);
    assert!(!field.check_game_over(&BlockType::Empty));
    field.push_garbage(1, 0);
    assert!(field.check_game_over(&BlockType::Empty));
    assert!(row_of(&field, 0).iter().all(|c| *c == BlockType::Empty));

    let mut full = Field::new();
    put(&mut full, 0, 33, BlockType::O);
    full.push_garbage(1000, 9);
    assert!(full.check_game_over(&BlockType::Empty));
    for y in 0..FIELD_HEIGHT_WITH_OUTSIDE {
        assert_eq!(row_of(&full, y).iter().filter(|c| **c == BlockType::Attacked).count(), 9);
        assert_eq!(full.get_grid_data(&Grid::new(9, y as i32)), BlockType::Empty);
    }
    // A column that the field does not have leaves no cell open.
    let mut closed = Field::new();
    closed.push_garbage(1, 10);
    assert!(row_of(&closed, 33).iter().all(|c| *c == BlockType::Attacked));
}

#[test]
fn filling_a_row_with_dropped_pieces_clears_one_line() {
    let mut field = Field::new();
    let mut piece = ControlBlock::new();
    for column in [0, 3, 6] {
        piece.apply_block(BlockType::I, block_start_position());
        while piece.position.x > column && piece.left(&field) {}
        while piece.position.x < column && piece.right(&field) {}
        assert_eq!(piece.position.x, column);
        piece.hard_drop(&field);
        field.lock_block(&piece.block, &piece.position);
        assert_eq!(field.clear_lines(), 0);
    }
    piece.apply_block(BlockType::I, block_start_position());
    assert!(piece.rotate(&field));
    while piece.right(&field) {}
    assert_eq!(piece.position.x, 8);
    piece.hard_drop(&field);
    field.lock_block(&piece.block, &piece.position);
    let cleared = field.clear_lines();
    assert_eq!(cleared, 1);
    assert_eq!(SimpleScoreCalculator::new().calc(cleared, TSpinType::NoSpin, 0), 100);
    assert!(row_of(&field, 33).iter().all(|c| *c == BlockType::Empty));
    assert_eq!(field.get_grid_data(&Grid::new(9, 32)), BlockType::I);
    field.drop_lines();
    assert_eq!(field.get_grid_data(&Grid::new(9, 33)), BlockType::I);
    assert_eq!(field.get_grid_data(&Grid::new(9, 32)), BlockType::I);
    assert_eq!(field.get_grid_data(&Grid::new(9, 31)), BlockType::Empty);
}
