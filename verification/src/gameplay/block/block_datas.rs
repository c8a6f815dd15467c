//! The catalogue of piece shapes.

use vstd::prelude::*;
use crate::utility::grid::Grid;
use crate::utility::vector_util::grid_view;

verus! {

/// Column at which a fresh piece is placed.
pub const BLOCK_START_POSITION_X: i32 = 2;

/// Row at which a fresh piece is placed; everything above it is the buffer
/// that stays off screen.
pub const BLOCK_START_POSITION_Y: i32 = 17;

/// The position at which a fresh piece is placed.
pub fn block_start_position() -> (start: Grid)
    ensures
        start.x == BLOCK_START_POSITION_X,
        start.y == BLOCK_START_POSITION_Y,
{
    Grid { x: BLOCK_START_POSITION_X, y: BLOCK_START_POSITION_Y }
}

/// What a cell holds: one of the seven pieces, a garbage cell, or nothing.
#[derive(Clone, Copy, PartialEq, Eq, Debug, Structural)]
pub enum BlockType {
    I,
    O,
    T,
    S,
    Z,
    J,
    L,
    Attacked,
    Empty,
}

/// The seven kinds that can fall: everything but garbage and the empty cell.
pub open spec fn is_piece(block_type: BlockType) -> bool {
    block_type != BlockType::Attacked && block_type != BlockType::Empty
}

/// A row of three cells.
pub open spec fn row3(a: BlockType, b: BlockType, c: BlockType) -> Seq<BlockType> {
    seq![a, b, c]
}

/// The shape a kind of block starts with, rows from top to bottom. Pieces
/// live in a 3x3 box whose bottom row is empty; garbage and the empty cell
/// are a single cell.
pub open spec fn shape_of(block_type: BlockType) -> Seq<Seq<BlockType>> {
    let n = BlockType::Empty;
    match block_type {
        BlockType::I => seq![row3(n, n, n), row3(BlockType::I, BlockType::I, BlockType::I), row3(n, n, n)],
        BlockType::O => seq![row3(BlockType::O, BlockType::O, n), row3(BlockType::O, BlockType::O, n), row3(n, n, n)],
        BlockType::T => seq![row3(n, BlockType::T, n), row3(BlockType::T, BlockType::T, BlockType::T), row3(n, n, n)],
        BlockType::S => seq![row3(n, BlockType::S, BlockType::S), row3(BlockType::S, BlockType::S, n), row3(n, n, n)],
        BlockType::Z => seq![row3(BlockType::Z, BlockType::Z, n), row3(n, BlockType::Z, BlockType::Z), row3(n, n, n)],
        BlockType::J => seq![row3(n, BlockType::J, n), row3(n, BlockType::J, BlockType::J), row3(n, n, n)],
        BlockType::L => seq![row3(n, BlockType::L, n), row3(BlockType::L, BlockType::L, n), row3(n, n, n)],
        BlockType::Attacked => seq![seq![BlockType::Attacked]],
        BlockType::Empty => seq![seq![BlockType::Empty]],
    }
}

/// Whether a row holds at least one cell that is not empty.
pub open spec fn row_has_block(row: Seq<BlockType>) -> bool {
    exists|c: int| 0 <= c < row.len() && #[trigger] row[c] != BlockType::Empty
}

/// Whether a shape holds at least one cell that is not empty.
pub open spec fn shape_has_block(shape: Seq<Seq<BlockType>>) -> bool {
    exists|r: int| 0 <= r < shape.len() && row_has_block(#[trigger] shape[r])
}

/// The index of the lowest row that holds a block, or 0 where no row does.
pub open spec fn bottom_row(shape: Seq<Seq<BlockType>>) -> int
    decreases shape.len(),
{
    if shape.len() == 0 {
        0
    } else if row_has_block(shape.last()) {
        shape.len() - 1
    } else {
        bottom_row(shape.drop_last())
    }
}

/// How many empty rows lie under the lowest block of a kind's starting shape.
pub open spec fn spawn_padding(block_type: BlockType) -> int {
    shape_of(block_type).len() - 1 - bottom_row(shape_of(block_type))
}

fn make_row3(a: BlockType, b: BlockType, c: BlockType) -> (row: Vec<BlockType>)
    ensures
        row@ == row3(a, b, c),
{
    let mut row: Vec<BlockType> = Vec::new();
    row.push(a);
    row.push(b);
    row.push(c);
    assert(row@ =~= row3(a, b, c));
    row
}

fn make_shape3(top: Vec<BlockType>, middle: Vec<BlockType>, bottom: Vec<BlockType>) -> (shape: Vec<
    Vec<BlockType>,
>)
    ensures
        grid_view(shape) == seq![top@, middle@, bottom@],
{
    let mut shape: Vec<Vec<BlockType>> = Vec::new();
    shape.push(top);
    shape.push(middle);
    shape.push(bottom);
    assert(grid_view(shape) =~= seq![top@, middle@, bottom@]);
    shape
}

fn make_shape1(cell: BlockType) -> (shape: Vec<Vec<BlockType>>)
    ensures
        grid_view(shape) == seq![seq![cell]],
{
    let mut row: Vec<BlockType> = Vec::new();
    row.push(cell);
    let mut shape: Vec<Vec<BlockType>> = Vec::new();
    shape.push(row);
    assert(shape[0]@ =~= seq![cell]);
    assert(grid_view(shape) =~= seq![seq![cell]]);
    shape
}

/// The shape a kind of block starts with.
pub fn block_shape(block_type: BlockType) -> (shape: Vec<Vec<BlockType>>)
    ensures
        grid_view(shape) == shape_of(block_type),
{
    let n = BlockType::Empty;
    match block_type {
        BlockType::I => make_shape3(
            make_row3(n, n, n),
            make_row3(BlockType::I, BlockType::I, BlockType::I),
            make_row3(n, n, n),
        ),
        BlockType::O => make_shape3(
            make_row3(BlockType::O, BlockType::O, n),
            make_row3(BlockType::O, BlockType::O, n),
            make_row3(n, n, n),
        ),
        BlockType::T => make_shape3(
            make_row3(n, BlockType::T, n),
            make_row3(BlockType::T, BlockType::T, BlockType::T),
            make_row3(n, n, n),
        ),
        BlockType::S => make_shape3(
            make_row3(n, BlockType::S, BlockType::S),
            make_row3(BlockType::S, BlockType::S, n),
            make_row3(n, n, n),
        ),
        BlockType::Z => make_shape3(
            make_row3(BlockType::Z, BlockType::Z, n),
            make_row3(n, BlockType::Z, BlockType::Z),
            make_row3(n, n, n),
        ),
        BlockType::J => make_shape3(
            make_row3(n, BlockType::J, n),
            make_row3(n, BlockType::J, BlockType::J),
            make_row3(n, n, n),
        ),
        BlockType::L => make_shape3(
            make_row3(n, BlockType::L, n),
            make_row3(BlockType::L, BlockType::L, n),
            make_row3(n, n, n),
        ),
        BlockType::Attacked => make_shape1(BlockType::Attacked),
        BlockType::Empty => make_shape1(BlockType::Empty),
    }
}

/// Tells whether a row holds a block.
pub(crate) fn row_filled(row: &Vec<BlockType>) -> (filled: bool)
    ensures
        filled == row_has_block(row@),
{
    let mut c: usize = 0;
    while c < row.len()
        invariant
            c <= row.len(),
            forall|j: int| 0 <= j < c ==> #[trigger] row@[j] == BlockType::Empty,
        decreases row.len() - c,
    {
        if row[c] != BlockType::Empty {
            return true;
        }
        c += 1;
    }
    false
}

/// The lowest row that holds a block is a row of the shape.
pub proof fn lemma_bottom_row_bound(shape: Seq<Seq<BlockType>>)
    ensures
        0 <= bottom_row(shape),
        shape.len() > 0 ==> bottom_row(shape) < shape.len(),
        shape.len() == 0 ==> bottom_row(shape) == 0,
    decreases shape.len(),
{
    if shape.len() > 0 && !row_has_block(shape.last()) {
        lemma_bottom_row_bound(shape.drop_last());
    }
}

/// Finds the lowest row that holds a block; 0 where the shape holds none.
pub fn calc_block_bottom(block: &Vec<Vec<BlockType>>) -> (bottom: usize)
    ensures
        bottom == bottom_row(grid_view(*block)),
        block.len() > 0 ==> bottom < block.len(),
{
    let ghost shape = grid_view(*block);
    let mut i: usize = block.len();
    assert(shape.subrange(0, i as int) =~= shape);
    while i > 0
        invariant
            i <= block.len(),
            shape == grid_view(*block),
            bottom_row(shape) == bottom_row(shape.subrange(0, i as int)),
        decreases i,
    {
        let ghost head = shape.subrange(0, i as int);
        assert(head.last() == block[i - 1]@);
        if row_filled(&block[i - 1]) {
            return i - 1;
        }
        assert(head.drop_last() =~= shape.subrange(0, i - 1));
        i -= 1;
    }
    assert(shape.subrange(0, 0).len() == 0);
    0
}

/// Tells whether a shape holds a block.
pub(crate) fn shape_filled(shape: &Vec<Vec<BlockType>>) -> (filled: bool)
    ensures
        filled == shape_has_block(grid_view(*shape)),
{
    let mut r: usize = 0;
    while r < shape.len()
        invariant
            r <= shape.len(),
            forall|i: int| 0 <= i < r ==> !row_has_block(#[trigger] grid_view(*shape)[i]),
        decreases shape.len() - r,
    {
        if row_filled(&shape[r]) {
            assert(row_has_block(grid_view(*shape)[r as int]));
            return true;
        }
        r += 1;
    }
    false
}

/// Tells whether two shapes have the same cells in the same places.
pub(crate) fn shapes_equal(a: &Vec<Vec<BlockType>>, b: &Vec<Vec<BlockType>>) -> (same: bool)
    ensures
        same == (grid_view(*a) == grid_view(*b)),
{
    if a.len() != b.len() {
        assert(grid_view(*a).len() != grid_view(*b).len());
        return false;
    }
    let mut r: usize = 0;
    while r < a.len()
        invariant
            r <= a.len(),
            a.len() == b.len(),
            forall|i: int| 0 <= i < r ==> (#[trigger] a[i])@ == b[i]@,
        decreases a.len() - r,
    {
        if a[r].len() != b[r].len() {
            assert(grid_view(*a)[r as int].len() != grid_view(*b)[r as int].len());
            return false;
        }
        let mut c: usize = 0;
        while c < a[r].len()
            invariant
                r < a.len(),
                a.len() == b.len(),
                c <= a[r as int].len(),
                a[r as int].len() == b[r as int].len(),
                forall|j: int| 0 <= j < c ==> #[trigger] a[r as int][j] == b[r as int][j],
            decreases a[r as int].len() - c,
        {
            if a[r][c] != b[r][c] {
                assert(grid_view(*a)[r as int][c as int] != grid_view(*b)[r as int][c as int]);
                return false;
            }
            c += 1;
        }
        assert(a[r as int]@ =~= b[r as int]@);
        r += 1;
    }
    assert(grid_view(*a) =~= grid_view(*b));
    true
}

} // verus!
