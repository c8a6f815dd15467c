//! T-spin detection: was the last move of a T piece a turn, and if so, how
//! tightly is the piece wedged in.

use vstd::prelude::*;
use crate::gameplay::block::block_datas::{block_shape, shape_of, shapes_equal, BlockType};
use crate::gameplay::block::control_block::ControlBlock;
use crate::utility::grid::Grid;
use crate::utility::vector_util::{copy_vec_2d, grid_view, overlaid};

verus! {

/// How a placement counts. `NoSpin`: the last move was no turn, or too few
/// corners around the piece are taken. `Full`: both corners beside the
/// pointed side are taken, or the turn ended on the last kick. `Mini`:
/// anything else.
#[derive(PartialEq, Eq, Copy, Clone, Debug, Structural)]
pub enum TSpinType {
    NoSpin,
    Mini,
    Full,
}

/// The side to which the single arm of a T points. `Unknown` where the
/// shape has no free side and so is no T.
#[derive(PartialEq, Eq, Copy, Clone, Debug, Hash, Structural)]
pub enum TBlockDirection {
    N,
    E,
    W,
    S,
    Unknown,
}

/// The matrix has three rows of at least three cells at its top.
pub open spec fn covers_3x3(m: Seq<Seq<BlockType>>) -> bool {
    m.len() >= 3 && m[0].len() >= 3 && m[1].len() >= 3 && m[2].len() >= 3
}

/// Where the arm of a T points: away from the one edge cell of its 3x3 box
/// that is not part of it. Where several edge cells are free, the first in
/// the order bottom, left, right, top decides.
pub open spec fn t_direction(shape: Seq<Seq<BlockType>>) -> TBlockDirection {
    if shape[2][1] != BlockType::T {
        TBlockDirection::N
    } else if shape[1][0] != BlockType::T {
        TBlockDirection::E
    } else if shape[1][2] != BlockType::T {
        TBlockDirection::W
    } else if shape[0][1] != BlockType::T {
        TBlockDirection::S
    } else {
        TBlockDirection::Unknown
    }
}

/// Whether a corner of the 3x3 window around the piece is taken. Corners are
/// numbered 0 top left, 1 top right, 2 bottom left, 3 bottom right; the
/// window's rows run from top to bottom.
pub open spec fn corner_taken(window: Seq<Seq<BlockType>>, corner: int) -> bool {
    if corner == 0 {
        window[0][0] != BlockType::Empty
    } else if corner == 1 {
        window[0][2] != BlockType::Empty
    } else if corner == 2 {
        window[2][0] != BlockType::Empty
    } else if corner == 3 {
        window[2][2] != BlockType::Empty
    } else {
        false
    }
}

/// How many of the four corners are taken.
pub open spec fn corners_taken(window: Seq<Seq<BlockType>>) -> int {
    (if corner_taken(window, 0) { 1int } else { 0int })
        + (if corner_taken(window, 1) { 1int } else { 0int })
        + (if corner_taken(window, 2) { 1int } else { 0int })
        + (if corner_taken(window, 3) { 1int } else { 0int })
}

/// The two corners beside the side the T points to.
pub open spec fn pointed_corners(direction: TBlockDirection) -> (int, int) {
    match direction {
        TBlockDirection::N => (0, 1),
        TBlockDirection::E => (1, 3),
        TBlockDirection::S => (3, 2),
        TBlockDirection::W => (2, 0),
        TBlockDirection::Unknown => (4, 4),
    }
}

/// The turn moved the piece by the last offset of a kick table: two rows
/// down and one column to either side.
pub open spec fn is_last_kick(dx: int, dy: int) -> bool {
    dy == 2 && (dx == 1 || dx == -1)
}

/// How a turn of a piece of `shape` counts, given the 3x3 `window` of the
/// field around it and the move `(dx, dy)` that the turn made.
pub open spec fn t_spin_class(shape: Seq<Seq<BlockType>>, window: Seq<Seq<BlockType>>, dx: int, dy: int) -> TSpinType {
    let direction = t_direction(shape);
    let beside = pointed_corners(direction);
    if direction == TBlockDirection::Unknown {
        TSpinType::NoSpin
    } else if corners_taken(window) < 3 {
        TSpinType::NoSpin
    } else if (corner_taken(window, beside.0) && corner_taken(window, beside.1)) || is_last_kick(
        dx,
        dy,
    ) {
        TSpinType::Full
    } else {
        TSpinType::Mini
    }
}

/// Remembers what a T piece looked like and where it was before a move, so
/// that the move can be judged afterwards.
pub struct TSpinChecker {
    t_block_data: Vec<Vec<BlockType>>,
    t_block_position: Grid,
}

impl TSpinChecker {
    /// The shape on record.
    pub closed spec fn recorded_shape(&self) -> Seq<Seq<BlockType>> {
        grid_view(self.t_block_data)
    }

    /// The position on record.
    pub closed spec fn recorded_position(&self) -> Grid {
        self.t_block_position
    }

    /// A checker with the starting shape of the T on record, at the origin.
    pub fn new() -> (checker: Self)
        ensures
            checker.recorded_shape() == shape_of(BlockType::T),
            checker.recorded_position() == (Grid { x: 0, y: 0 }),
    {
        TSpinChecker { t_block_data: block_shape(BlockType::T), t_block_position: Grid::new(0, 0) }
    }

    /// Puts the piece on record, if it is a T; any other piece is ignored.
    /// Meant to be called right before the piece is moved.
    pub fn set_block_data(&mut self, control_block: &ControlBlock)
        ensures
            control_block.block_type == BlockType::T ==> final(self).recorded_shape() == overlaid(
                old(self).recorded_shape(),
                control_block@.shape,
            ) && final(self).recorded_position() == control_block.position,
            control_block.block_type != BlockType::T ==> final(self).recorded_shape() == old(self).recorded_shape() && final(self).recorded_position() == old(self).recorded_position(),
    {
        if control_block.block_type == BlockType::T {
            copy_vec_2d(&mut self.t_block_data, &control_block.block);
            self.t_block_position.copy_data(&control_block.position);
        }
    }

    /// Tells whether the piece is a T whose shape differs from the one on
    /// record: whether its last move was a turn.
    pub fn check_t_spinned(&self, control_block: &ControlBlock) -> (spinned: bool)
        ensures
            spinned == (control_block.block_type == BlockType::T && self.recorded_shape()
                != control_block@.shape),
    {
        control_block.block_type == BlockType::T && !shapes_equal(
            &self.t_block_data,
            &control_block.block,
        )
    }

    /// Classifies a turn. `field_data` is the 3x3 window of the field that
    /// the piece's box lies on, rows from top to bottom, with every cell
    /// outside the field counted as taken.
    pub fn calc_t_spin_type(&self, control_block: &ControlBlock, field_data: &Vec<Vec<BlockType>>) -> (spin: TSpinType)
        requires
            covers_3x3(control_block@.shape),
            covers_3x3(grid_view(*field_data)),
        ensures
            spin == t_spin_class(
                control_block@.shape,
                grid_view(*field_data),
                control_block.position.x - self.recorded_position().x,
                control_block.position.y - self.recorded_position().y,
            ),
    {
        let ghost window = grid_view(*field_data);
        let dx: i64 = control_block.position.x as i64 - self.t_block_position.x as i64;
        let dy: i64 = control_block.position.y as i64 - self.t_block_position.y as i64;
        let srs_last_pattern = dy == 2 && (dx == 1 || dx == -1);
        let t_direction = self.search_t_block_direction(&control_block.block);
        if t_direction == TBlockDirection::Unknown {
            return TSpinType::NoSpin;
        }
        let top_left = field_data[0][0] != BlockType::Empty;
        let top_right = field_data[0][2] != BlockType::Empty;
        let bottom_left = field_data[2][0] != BlockType::Empty;
        let bottom_right = field_data[2][2] != BlockType::Empty;
        assert(top_left == corner_taken(window, 0));
        assert(top_right == corner_taken(window, 1));
        assert(bottom_left == corner_taken(window, 2));
        assert(bottom_right == corner_taken(window, 3));
        let mut corner_count: u8 = 0;
        if top_left {
            corner_count += 1;
        }
        if top_right {
            corner_count += 1;
        }
        if bottom_left {
            corner_count += 1;
        }
        if bottom_right {
            corner_count += 1;
        }
        let both_beside = match t_direction {
            TBlockDirection::N => top_left && top_right,
            TBlockDirection::E => top_right && bottom_right,
            TBlockDirection::S => bottom_right && bottom_left,
            TBlockDirection::W => bottom_left && top_left,
            TBlockDirection::Unknown => false,
        };
        if corner_count < 3 {
            TSpinType::NoSpin
        } else if both_beside || srs_last_pattern {
            TSpinType::Full
        } else {
            TSpinType::Mini
        }
    }

    /// Finds the side the T points to by looking for the edge cell of its
    /// box that is not part of it.
    fn search_t_block_direction(&self, t_block_data: &Vec<Vec<BlockType>>) -> (direction: TBlockDirection)
        requires
            covers_3x3(grid_view(*t_block_data)),
        ensures
            direction == t_direction(grid_view(*t_block_data)),
    {
        if t_block_data[2][1] != BlockType::T {
            TBlockDirection::N
        } else if t_block_data[1][0] != BlockType::T {
            TBlockDirection::E
        } else if t_block_data[1][2] != BlockType::T {
            TBlockDirection::W
        } else if t_block_data[0][1] != BlockType::T {
            TBlockDirection::S
        } else {
            TBlockDirection::Unknown
        }
    }
}

} // verus!
