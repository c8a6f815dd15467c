//! The falling piece: where it is, what it looks like, and how it moves.

use vstd::prelude::*;
use crate::gameplay::block::block_datas::{
    block_shape, calc_block_bottom, shape_of, spawn_padding, BlockType,
};
use crate::gameplay::field::{collides, landing_y, Field};
use crate::utility::grid::Grid;
use crate::utility::vector_util::{
    grid_view, rotate_vec_90_clockwise, rotate_vec_90_counterclockwise, rotated_clockwise,
    rotated_counterclockwise,
};

verus! {

/// The falling piece. `position` is the field cell under the bottom-left
/// cell of `block`; a `block_type` of `Empty` means that nothing is falling.
#[derive(PartialEq, Clone)]
pub struct ControlBlock {
    pub position: Grid,
    pub block: Vec<Vec<BlockType>>,
    pub block_type: BlockType,
}

/// The falling piece as plain values.
pub struct PieceModel {
    /// Column of the bottom-left cell.
    pub x: int,
    /// Row of the bottom-left cell.
    pub y: int,
    /// The cells of the piece, rows from top to bottom.
    pub shape: Seq<Seq<BlockType>>,
    /// The kind of the piece.
    pub kind: BlockType,
}

/// No piece at all.
pub open spec fn no_piece() -> PieceModel {
    PieceModel { x: 0, y: 0, shape: Seq::empty(), kind: BlockType::Empty }
}

/// A fresh piece of `kind` for the start position `(x, y)`: it is lowered by
/// the empty rows under its lowest block, so that it does not hover.
pub open spec fn spawned(kind: BlockType, x: int, y: int) -> PieceModel {
    PieceModel { x, y: y + spawn_padding(kind), shape: shape_of(kind), kind }
}

/// Whether `v` can be held in an `i32`.
pub open spec fn fits_i32(v: int) -> bool {
    i32::MIN <= v <= i32::MAX
}

/// `shape` may stand at `(x, y)`: the place can be named and nothing is in
/// the way.
pub open spec fn can_stand(cells: Seq<Seq<BlockType>>, shape: Seq<Seq<BlockType>>, x: int, y: int) -> bool {
    fits_i32(x) && fits_i32(y) && !collides(cells, shape, x, y)
}

/// The piece exists and may move by `(dx, dy)`.
pub open spec fn can_shift(piece: PieceModel, cells: Seq<Seq<BlockType>>, dx: int, dy: int) -> bool {
    piece.kind != BlockType::Empty && can_stand(cells, piece.shape, piece.x + dx, piece.y + dy)
}

/// The piece after an attempt to move by `(dx, dy)`: moved as a whole, or
/// not at all.
pub open spec fn shifted(piece: PieceModel, cells: Seq<Seq<BlockType>>, dx: int, dy: int) -> PieceModel {
    if can_shift(piece, cells, dx, dy) {
        PieceModel { x: piece.x + dx, y: piece.y + dy, shape: piece.shape, kind: piece.kind }
    } else {
        piece
    }
}

/// The piece after it fell as far as it can.
pub open spec fn hard_dropped(piece: PieceModel, cells: Seq<Seq<BlockType>>) -> PieceModel {
    if piece.kind != BlockType::Empty {
        PieceModel {
            x: piece.x,
            y: landing_y(cells, piece.shape, piece.x, piece.y),
            shape: piece.shape,
            kind: piece.kind,
        }
    } else {
        piece
    }
}

/// The offsets tried, in this order, after a quarter turn to the right. The
/// I piece reaches further than the others.
pub open spec fn clockwise_kicks(kind: BlockType) -> Seq<(int, int)> {
    if kind == BlockType::I {
        seq![(0, 0), (-2, 0), (1, 0), (-2, 1), (-1, -2)]
    } else {
        seq![(0, 0), (-1, 0), (-1, -1), (0, 2), (-1, 2)]
    }
}

/// The offsets tried, in this order, after a quarter turn to the left.
pub open spec fn counterclockwise_kicks(kind: BlockType) -> Seq<(int, int)> {
    if kind == BlockType::I {
        seq![(0, 0), (-1, 0), (2, 0), (-1, -2), (2, 1)]
    } else {
        seq![(0, 0), (1, 0), (1, -1), (0, 2), (1, 2)]
    }
}

/// The index of the first offset from `from` on at which `shape` may stand,
/// or the number of offsets where it may stand at none.
pub open spec fn first_fitting_kick(
    cells: Seq<Seq<BlockType>>,
    shape: Seq<Seq<BlockType>>,
    x: int,
    y: int,
    kicks: Seq<(int, int)>,
    from: int,
) -> int
    decreases kicks.len() - from,
{
    if from < 0 || from >= kicks.len() {
        kicks.len() as int
    } else if can_stand(cells, shape, x + kicks[from].0, y + kicks[from].1) {
        from
    } else {
        first_fitting_kick(cells, shape, x, y, kicks, from + 1)
    }
}

/// The piece exists and its turned shape may stand at one of the offsets.
pub open spec fn can_turn(
    piece: PieceModel,
    cells: Seq<Seq<BlockType>>,
    turned: Seq<Seq<BlockType>>,
    kicks: Seq<(int, int)>,
) -> bool {
    piece.kind != BlockType::Empty && first_fitting_kick(cells, turned, piece.x, piece.y, kicks, 0)
        < kicks.len()
}

/// The piece after an attempt to take the shape `turned`: at the first
/// offset that fits, shape and position change together; where none fits,
/// nothing changes.
pub open spec fn turned_piece(
    piece: PieceModel,
    cells: Seq<Seq<BlockType>>,
    turned: Seq<Seq<BlockType>>,
    kicks: Seq<(int, int)>,
) -> PieceModel {
    let k = first_fitting_kick(cells, turned, piece.x, piece.y, kicks, 0);
    if can_turn(piece, cells, turned, kicks) {
        PieceModel { x: piece.x + kicks[k].0, y: piece.y + kicks[k].1, shape: turned, kind: piece.kind }
    } else {
        piece
    }
}

/// Whether a quarter turn to the right succeeds.
pub open spec fn can_rotate(piece: PieceModel, cells: Seq<Seq<BlockType>>) -> bool {
    can_turn(piece, cells, rotated_clockwise(piece.shape), clockwise_kicks(piece.kind))
}

/// The piece after an attempt at a quarter turn to the right.
pub open spec fn rotated(piece: PieceModel, cells: Seq<Seq<BlockType>>) -> PieceModel {
    turned_piece(piece, cells, rotated_clockwise(piece.shape), clockwise_kicks(piece.kind))
}

/// Whether a quarter turn to the left succeeds.
pub open spec fn can_counter_rotate(piece: PieceModel, cells: Seq<Seq<BlockType>>) -> bool {
    can_turn(piece, cells, rotated_counterclockwise(piece.shape), counterclockwise_kicks(piece.kind))
}

/// The piece after an attempt at a quarter turn to the left.
pub open spec fn counter_rotated(piece: PieceModel, cells: Seq<Seq<BlockType>>) -> PieceModel {
    turned_piece(piece, cells, rotated_counterclockwise(piece.shape), counterclockwise_kicks(piece.kind))
}

/// Five offsets as a sequence of pairs of integers.
pub open spec fn kicks_view(kicks: [(i32, i32); 5]) -> Seq<(int, int)> {
    Seq::new(5, |i: int| (kicks@[i].0 as int, kicks@[i].1 as int))
}

impl ControlBlock {
    /// The piece as plain values.
    pub open spec fn view(&self) -> PieceModel {
        PieceModel {
            x: self.position.x as int,
            y: self.position.y as int,
            shape: grid_view(self.block),
            kind: self.block_type,
        }
    }

    /// No piece.
    pub fn new() -> (piece: Self)
        ensures
            piece@ == no_piece(),
    {
        let piece = ControlBlock { position: Grid::new(0, 0), block: Vec::new(), block_type: BlockType::Empty };
        assert(grid_view(piece.block) =~= Seq::empty());
        piece
    }

    /// Makes this a fresh piece of `block_type`: its starting shape, placed
    /// at `start_position` and lowered by the empty rows under its lowest
    /// block.
    pub fn apply_block(&mut self, block_type: BlockType, start_position: Grid)
        requires
            start_position.y + spawn_padding(block_type) <= i32::MAX,
        ensures
            final(self)@ == spawned(block_type, start_position.x as int, start_position.y as int),
    {
        self.block_type = block_type;
        self.block = block_shape(block_type);
        self.position = start_position;
        assert(self.block.len() == grid_view(self.block).len());
        assert(shape_of(block_type).len() <= 3);
        let padding = self.block.len() - 1 - calc_block_bottom(&self.block);
        self.position.y += padding as i32;
    }

    /// Takes the piece away.
    pub fn delete_block(&mut self)
        ensures
            final(self)@ == no_piece(),
    {
        self.position = Grid::new(0, 0);
        self.block = Vec::new();
        self.block_type = BlockType::Empty;
        assert(grid_view(self.block) =~= Seq::empty());
    }

    /// Tries to move the piece by one cell in each of the given directions
    /// and tells whether it moved.
    pub(crate) fn shift(&mut self, field: &Field, dx: i32, dy: i32) -> (moved: bool)
        requires
            -1 <= dx <= 1,
            -1 <= dy <= 1,
        ensures
            moved == can_shift(old(self)@, field@, dx as int, dy as int),
            final(self)@ == shifted(old(self)@, field@, dx as int, dy as int),
    {
        if self.block_type == BlockType::Empty {
            return false;
        }
        match (self.position.x.checked_add(dx), self.position.y.checked_add(dy)) {
            (Some(x), Some(y)) => {
                let target = Grid::new(x, y);
                if field.check_collision(&self.block, &target) {
                    false
                } else {
                    self.position = target;
                    true
                }
            },
            _ => false,
        }
    }

    /// Moves the piece down by one row, if it can, and tells whether it
    /// moved.
    pub fn down(&mut self, field: &Field) -> (moved: bool)
        ensures
            moved == can_shift(old(self)@, field@, 0, 1),
            final(self)@ == shifted(old(self)@, field@, 0, 1),
    {
        self.shift(field, 0, 1)
    }

    /// Lets the piece fall as far as it can. Always reports success, even
    /// where the piece could not fall at all.
    pub fn hard_drop(&mut self, field: &Field) -> (dropped: bool)
        ensures
            dropped,
            final(self)@ == hard_dropped(old(self)@, field@),
    {
        if self.block_type == BlockType::Empty {
            return true;
        }
        let ghost start = self@;
        while self.position.y < i32::MAX
            invariant
                self.block_type != BlockType::Empty,
                start == old(self)@,
                self@.x == start.x,
                self@.shape == start.shape,
                self@.kind == start.kind,
                landing_y(field@, start.shape, start.x, start.y) == landing_y(
                    field@,
                    start.shape,
                    start.x,
                    self@.y,
                ),
            decreases i32::MAX - self.position.y,
        {
            let next = Grid::new(self.position.x, self.position.y + 1);
            if field.check_collision(&self.block, &next) {
                return true;
            }
            self.position.y += 1;
        }
        true
    }

    /// Moves the piece one column to the left, if it can, and tells whether
    /// it moved.
    pub fn left(&mut self, field: &Field) -> (moved: bool)
        ensures
            moved == can_shift(old(self)@, field@, -1, 0),
            final(self)@ == shifted(old(self)@, field@, -1, 0),
    {
        self.shift(field, -1, 0)
    }

    /// Moves the piece one column to the right, if it can, and tells whether
    /// it moved.
    pub fn right(&mut self, field: &Field) -> (moved: bool)
        ensures
            moved == can_shift(old(self)@, field@, 1, 0),
            final(self)@ == shifted(old(self)@, field@, 1, 0),
    {
        self.shift(field, 1, 0)
    }

    /// Gives the piece the shape `turned` at the first of `kicks` where it
    /// fits, and tells whether one did.
    fn settle_turn(&mut self, field: &Field, turned: Vec<Vec<BlockType>>, kicks: [(i32, i32); 5]) -> (done: bool)
        requires
            old(self).block_type != BlockType::Empty,
        ensures
            done == can_turn(old(self)@, field@, grid_view(turned), kicks_view(kicks)),
            final(self)@ == turned_piece(old(self)@, field@, grid_view(turned), kicks_view(kicks)),
    {
        let ghost piece = self@;
        let ghost shape = grid_view(turned);
        let ghost offsets = kicks_view(kicks);
        let mut i: usize = 0;
        while i < 5
            invariant
                i <= 5,
                *self == *old(self),
                self.block_type != BlockType::Empty,
                piece == old(self)@,
                shape == grid_view(turned),
                offsets == kicks_view(kicks),
                first_fitting_kick(field@, shape, piece.x, piece.y, offsets, 0) == first_fitting_kick(
                    field@,
                    shape,
                    piece.x,
                    piece.y,
                    offsets,
                    i as int,
                ),
            decreases 5 - i,
        {
            let kick = kicks[i];
            assert(offsets[i as int] == (kick.0 as int, kick.1 as int));
            match (self.position.x.checked_add(kick.0), self.position.y.checked_add(kick.1)) {
                (Some(x), Some(y)) => {
                    let target = Grid::new(x, y);
                    if !field.check_collision(&turned, &target) {
                        self.position = target;
                        self.block = turned;
                        return true;
                    }
                },
                _ => {},
            }
            i += 1;
        }
        false
    }

    /// Turns the piece a quarter turn to the right: the turned shape is
    /// tried at each offset of the kick table in turn, and the first that
    /// fits is taken. Where none fits, the piece stays as it is.
    pub fn rotate(&mut self, field: &Field) -> (turned: bool)
        ensures
            turned == can_rotate(old(self)@, field@),
            final(self)@ == rotated(old(self)@, field@),
    {
        if self.block_type == BlockType::Empty {
            return false;
        }
        let turned = rotate_vec_90_clockwise(&self.block);
        let kicks: [(i32, i32); 5] = if self.block_type == BlockType::I {
            [(0, 0), (-2, 0), (1, 0), (-2, 1), (-1, -2)]
        } else {
            [(0, 0), (-1, 0), (-1, -1), (0, 2), (-1, 2)]
        };
        assert(kicks_view(kicks) =~= clockwise_kicks(self.block_type));
        self.settle_turn(field, turned, kicks)
    }

    /// Turns the piece a quarter turn to the left, in the same way as
    /// `rotate` with the table for that direction.
    pub fn counter_rotate(&mut self, field: &Field) -> (turned: bool)
        ensures
            turned == can_counter_rotate(old(self)@, field@),
            final(self)@ == counter_rotated(old(self)@, field@),
    {
        if self.block_type == BlockType::Empty {
            return false;
        }
        let turned = rotate_vec_90_counterclockwise(&self.block);
        let kicks: [(i32, i32); 5] = if self.block_type == BlockType::I {
            [(0, 0), (-1, 0), (2, 0), (-1, -2), (2, 1)]
        } else {
            [(0, 0), (1, 0), (1, -1), (0, 2), (1, 2)]
        };
        assert(kicks_view(kicks) =~= counterclockwise_kicks(self.block_type));
        self.settle_turn(field, turned, kicks)
    }
}

} // verus!
