use falling_blocks::gameplay::block::block_datas::{
    block_shape, block_start_position, calc_block_bottom, BlockType,
};
use falling_blocks::gameplay::block::control_block::ControlBlock;
use falling_blocks::gameplay::block::hold_block::HoldBlock;
use falling_blocks::gameplay::block::next_blocks::{Bag, NextBlocks, BAG_SIZE};
use falling_blocks::gameplay::field::{Field, FIELD_HEIGHT_WITH_OUTSIDE};
use falling_blocks::utility::grid::Grid;

const PIECES: [BlockType; 7] = [
    BlockType::I,
    BlockType::O,
    BlockType::T,
    BlockType::S,
    BlockType::Z,
    BlockType::J,
    BlockType::L,
];

fn is_permutation(run: &[BlockType]) -> bool {
    run.len() == 7 && PIECES.iter().all(|kind| run.iter().filter(|b| *b == kind).count() == 1)
}

#[test]
fn test_block_shape() {
    let t_shape = block_shape(BlockType::T);
    assert_eq!(t_shape.len(), 3);
    assert_eq!(t_shape[0].len(), 3);
    assert_eq!(t_shape[1][0], BlockType::T);
    assert_eq!(t_shape[1][1], BlockType::T);
    assert_eq!(t_shape[1][2], BlockType::T);
}

#[test]
fn test_calc_block_bottom() {
    assert_eq!(calc_block_bottom(&block_shape(BlockType::I)), 1);
}

#[test]
fn shapes_are_as_catalogued() {
    let n = BlockType::Empty;
    assert_eq!(
        block_shape(BlockType::I),
        vec![vec![n, n, n], vec![BlockType::I, BlockType::I, BlockType::I], vec![n, n, n]]
    );
    assert_eq!(
        block_shape(BlockType::J),
        vec![vec![n, BlockType::J, n], vec![n, BlockType::J, BlockType::J], vec![n, n, n]]
    );
    assert_eq!(
        block_shape(BlockType::L),
        vec![vec![n, BlockType::L, n], vec![BlockType::L, BlockType::L, n], vec![n, n, n]]
    );
    assert_eq!(
        block_shape(BlockType::T),
        vec![vec![n, BlockType::T, n], vec![BlockType::T, BlockType::T, BlockType::T], vec![n, n, n]]
    );
    assert_eq!(block_shape(BlockType::Attacked), vec![vec![BlockType::Attacked]]);
    assert_eq!(block_shape(BlockType::Empty), vec![vec![BlockType::Empty]]);
    for kind in PIECES {
        let shape = block_shape(kind);
        assert_eq!(shape.len(), 3);
        assert!(shape.iter().all(|row| row.len() == 3));
        assert!(shape.iter().flatten().all(|cell| *cell == kind || *cell == n));
        assert_eq!(calc_block_bottom(&shape), 1);
    }
}

#[test]
fn block_bottom_of_odd_shapes() {
    let n = BlockType::Empty;
    assert_eq!(calc_block_bottom(&vec![]), 0);
    assert_eq!(calc_block_bottom(&vec![vec![n, n], vec![n, n]]), 0);
    assert_eq!(calc_block_bottom(&vec![vec![n], vec![n], vec![BlockType::T]]), 2);
    assert_eq!(calc_block_bottom(&vec![vec![BlockType::T], vec![n], vec![n]]), 0);
}

#[test]
fn test_rotate() {
    let mut control_block = ControlBlock::new();
    control_block.apply_block(BlockType::T, block_start_position());
    let field = Field::new();
    control_block.rotate(&field);
    assert_eq!(
        control_block.block,
        vec![
            vec![BlockType::Empty, BlockType::T, BlockType::Empty],
            vec![BlockType::Empty, BlockType::T, BlockType::T],
            vec![BlockType::Empty, BlockType::T, BlockType::Empty],
        ]
    );

    control_block.counter_rotate(&field);
    assert_eq!(
        control_block.block,
        vec![
            vec![BlockType::Empty, BlockType::T, BlockType::Empty],
            vec![BlockType::T, BlockType::T, BlockType::T],
            vec![BlockType::Empty, BlockType::Empty, BlockType::Empty],
        ]
    );
}

#[test]
fn test_movement() {
    let mut control_block = ControlBlock::new();
    control_block.apply_block(BlockType::I, block_start_position());
    let field = Field::new();
    let mut block_position_adjust = 0;
    'outer: for y in (0..control_block.block.len()).rev() {
        for x in 0..control_block.block[y].len() {
            if control_block.block[y][x] != BlockType::Empty {
                block_position_adjust = (control_block.block.len() - 1 - y) as i32;
                break 'outer;
            }
        }
    }

    control_block.down(&field);
    assert_eq!(control_block.position, Grid::new(2, 18 + block_position_adjust));

    control_block.left(&field);
    assert_eq!(control_block.position, Grid::new(1, 18 + block_position_adjust));

    control_block.right(&field);
    assert_eq!(control_block.position, Grid::new(2, 18 + block_position_adjust));

    control_block.hard_drop(&field);
    assert_eq!(
        control_block.position.y,
        FIELD_HEIGHT_WITH_OUTSIDE as i32 - 1 + block_position_adjust
    );
}

#[test]
fn moves_are_all_or_nothing() {
    let field = Field::new();
    let mut piece = ControlBlock::new();
    assert!(!piece.down(&field));
    assert!(!piece.left(&field));
    assert!(!piece.right(&field));
    assert!(!piece.rotate(&field));
    assert!(!piece.counter_rotate(&field));
    assert!(piece.hard_drop(&field));
    assert_eq!(piece.position, Grid::new(0, 0));

    piece.apply_block(BlockType::I, block_start_position());
    assert_eq!(piece.position, Grid::new(2, 18));
    assert!(piece.left(&field));
    assert!(piece.left(&field));
    assert_eq!(piece.position, Grid::new(0, 18));
    assert!(!piece.left(&field));
    assert_eq!(piece.position, Grid::new(0, 18));
    for _ in 0..7 {
        assert!(piece.right(&field));
    }
    assert!(!piece.right(&field));
    assert_eq!(piece.position, Grid::new(7, 18));
    assert!(piece.hard_drop(&field));
    assert_eq!(piece.position, Grid::new(7, 34));
    assert!(!piece.down(&field));
    assert!(piece.hard_drop(&field));
    assert_eq!(piece.position, Grid::new(7, 34));

    piece.delete_block();
    assert_eq!(piece.block_type, BlockType::Empty);
    assert!(piece.block.is_empty());
    assert_eq!(piece.position, Grid::new(0, 0));
}

#[test]
fn rotation_kicks_off_the_wall() {
    let field = Field::new();
    let n = BlockType::Empty;
    let mut piece = ControlBlock::new();
    piece.apply_block(BlockType::T, block_start_position());
    assert!(piece.rotate(&field));
    while piece.left(&field) {}
    assert_eq!(piece.position.x, -1);
    // Turning back needs column -1; the second left-turn offset (1, 0) fits.
    assert!(piece.counter_rotate(&field));
    assert_eq!(piece.position, Grid::new(0, 18));
    assert_eq!(
        piece.block,
        vec![vec![n, BlockType::T, n], vec![BlockType::T, BlockType::T, BlockType::T], vec![n, n, n]]
    );

    // A vertical I against the left wall: the turn to the right is kicked.
    let mut bar = ControlBlock::new();
    bar.apply_block(BlockType::I, block_start_position());
    assert!(bar.rotate(&field));
    assert_eq!(bar.position, Grid::new(2, 18));
    while bar.left(&field) {}
    assert_eq!(bar.position.x, -1);
    assert!(bar.rotate(&field));
    assert_eq!(bar.position, Grid::new(0, 18));
}

#[test]
fn rotation_fails_when_no_offset_fits() {
    let mut field = Field::new();
    // Fill everything but column 4.
    for y in 0..FIELD_HEIGHT_WITH_OUTSIDE as i32 {
        for x in 0..10 {
            if x != 4 {
                field.lock_block(&vec![vec![BlockType::Attacked]], &Grid::new(x, y));
            }
        }
    }
    let mut bar = ControlBlock::new();
    bar.apply_block(BlockType::I, Grid::new(3, 19));
    bar.block = vec![
        vec![BlockType::Empty, BlockType::I, BlockType::Empty],
        vec![BlockType::Empty, BlockType::I, BlockType::Empty],
        vec![BlockType::Empty, BlockType::I, BlockType::Empty],
    ];
    let before = bar.clone();
    assert!(!field.check_collision(&bar.block, &bar.position));
    assert!(!bar.rotate(&field));
    assert!(bar == before);
    assert!(!bar.counter_rotate(&field));
    assert!(bar == before);
}

#[test]
fn test_hold_block() {
    let mut hold_block = HoldBlock::new();
    assert_eq!(hold_block.get_holding_block(), BlockType::Empty);
    assert_eq!(hold_block.can_hold(), true);

    let returned_block = hold_block.hold(BlockType::T).unwrap();
    assert_eq!(returned_block, BlockType::Empty);
    assert_eq!(hold_block.get_holding_block(), BlockType::T);
    assert_eq!(hold_block.can_hold(), false);

    let returned_block = hold_block.hold(BlockType::I);
    assert_eq!(returned_block, None);
    assert_eq!(hold_block.get_holding_block(), BlockType::T);

    hold_block.allow_hold();
    let returned_block = hold_block.hold(BlockType::I).unwrap();
    assert_eq!(returned_block, BlockType::T);
    assert_eq!(hold_block.get_holding_block(), BlockType::I);
}

#[test]
fn test_next_blocks() {
    let mut next_blocks = NextBlocks::new();
    let mut results = Vec::new();
    for _ in 0..14 {
        results.push(next_blocks.next());
    }
    assert_eq!(results.len(), 14);
    for block in results {
        assert_ne!(block, BlockType::Empty);
    }
}

#[test]
fn test_show_next_block() {
    let next_blocks = NextBlocks::new();
    for i in 0..14 {
        assert_ne!(next_blocks.show_next_block(i), BlockType::Empty);
    }
}

#[test]
fn test_bag_initialization() {
    let bag = Bag::new();
    assert_eq!(bag.rest(), BAG_SIZE);
}

#[test]
fn test_bag_next() {
    let mut bag = Bag::new();
    let first_block = bag.next();
    assert_ne!(first_block, BlockType::Empty);
    assert_eq!(bag.rest(), BAG_SIZE - 1);
}

#[test]
fn test_bag_exhaustion() {
    let mut bag = Bag::new();
    for _ in 0..BAG_SIZE {
        assert_ne!(bag.next(), BlockType::Empty);
    }
    assert_eq!(bag.next(), BlockType::Empty);
    assert_eq!(bag.rest(), 0);
}

#[test]
fn test_bag_show_next_block() {
    let bag = Bag::new();
    let first_block = bag.show_next_block(0);
    let second_block = bag.show_next_block(1);
    assert_ne!(first_block, BlockType::Empty);
    assert_ne!(second_block, BlockType::Empty);
    assert_ne!(first_block, second_block);
}

#[test]
fn a_bag_deals_every_piece_once() {
    for _ in 0..20 {
        let mut bag = Bag::new();
        let shown: Vec<BlockType> = (0..7).map(|i| bag.show_next_block(i)).collect();
        assert_eq!(bag.show_next_block(7), BlockType::Empty);
        assert_eq!(bag.show_next_block(usize::MAX), BlockType::Empty);
        let dealt: Vec<BlockType> = (0..7).map(|_| bag.next()).collect();
        assert_eq!(shown, dealt);
        assert!(is_permutation(&dealt));
        bag.init();
        assert_eq!(bag.rest(), 7);
        let again: Vec<BlockType> = (0..7).map(|_| bag.next()).collect();
        assert!(is_permutation(&again));
    }
}

#[test]
fn shuffling_changes_the_order() {
    let canonical = PIECES.to_vec();
    let mut changed = false;
    for _ in 0..50 {
        let mut bag = Bag::new();
        let dealt: Vec<BlockType> = (0..7).map(|_| bag.next()).collect();
        if dealt != canonical {
            changed = true;
        }
    }
    assert!(changed);
}

#[test]
fn every_run_of_seven_draws_is_a_permutation() {
    let mut next_blocks = NextBlocks::new();
    for _ in 0..30 {
        let run: Vec<BlockType> = (0..7).map(|_| next_blocks.next()).collect();
        assert!(is_permutation(&run));
    }
}

#[test]
fn the_preview_matches_the_draws() {
    let mut next_blocks = NextBlocks::new();
    for round in 0..40 {
        let decided = 14 - (round % 7);
        let decided = if round >= 7 && round % 7 == 0 { 7 } else if round >= 7 { 14 - (round % 7) } else { decided };
        let shown: Vec<BlockType> = (0..decided).map(|k| next_blocks.show_next_block(k)).collect();
        assert!(shown.iter().all(|kind| PIECES.contains(kind)));
        let mut copy_of_draws = Vec::new();
        // Looking does not consume: a second look shows the same.
        for k in 0..decided {
            copy_of_draws.push(next_blocks.show_next_block(k));
        }
        assert_eq!(shown, copy_of_draws);
        assert_eq!(next_blocks.next(), shown[0]);
        if decided > 1 {
            assert_eq!(next_blocks.show_next_block(0), shown[1]);
        }
    }
}

#[test]
fn the_preview_ends_where_nothing_is_decided() {
    let mut next_blocks = NextBlocks::new();
    assert_ne!(next_blocks.show_next_block(13), BlockType::Empty);
    assert_eq!(next_blocks.show_next_block(14), BlockType::Empty);
    let shown: Vec<BlockType> = (0..14).map(|k| next_blocks.show_next_block(k)).collect();
    let drawn: Vec<BlockType> = (0..14).map(|_| next_blocks.next()).collect();
    assert_eq!(shown, drawn);
    next_blocks = NextBlocks::new();
    for _ in 0..7 {
        next_blocks.next();
    }
    assert_ne!(next_blocks.show_next_block(6), BlockType::Empty);
    assert_eq!(next_blocks.show_next_block(7), BlockType::Empty);
}
