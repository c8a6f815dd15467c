//! The playfield: a fixed grid of cells that pieces are locked into.

use vstd::prelude::*;
use rand::Rng;
use crate::gameplay::block::block_datas::{
    block_shape, calc_block_bottom, shape_filled, shape_has_block, shape_of, spawn_padding,
    BlockType, BLOCK_START_POSITION_X, BLOCK_START_POSITION_Y,
};
use crate::utility::grid::Grid;
use crate::utility::vector_util::{array_to_vec_2d, grid_view};

verus! {

/// Number of columns.
pub const FIELD_WIDTH: usize = 10;

/// Number of rows, the off-screen buffer above the spawn row included: twice
/// the spawn row, so that a piece can turn freely before it becomes visible.
pub const FIELD_HEIGHT_WITH_OUTSIDE: usize = 34;

/// Whether `(x, y)` names a cell of the field.
pub open spec fn in_field(x: int, y: int) -> bool {
    0 <= x < FIELD_WIDTH && 0 <= y < FIELD_HEIGHT_WITH_OUTSIDE
}

/// Whether a grid of cells has the dimensions of the field.
pub open spec fn field_shaped(cells: Seq<Seq<BlockType>>) -> bool {
    &&& cells.len() == FIELD_HEIGHT_WITH_OUTSIDE
    &&& forall|y: int| 0 <= y < FIELD_HEIGHT_WITH_OUTSIDE ==> (#[trigger] cells[y]).len() == FIELD_WIDTH
}

/// A row of the field with nothing in it.
pub open spec fn empty_row() -> Seq<BlockType> {
    Seq::new(FIELD_WIDTH as nat, |x: int| BlockType::Empty)
}

/// A field with nothing in it.
pub open spec fn empty_cells() -> Seq<Seq<BlockType>> {
    Seq::new(FIELD_HEIGHT_WITH_OUTSIDE as nat, |y: int| empty_row())
}

/// What the field holds at `(x, y)`; outside the field that is nothing.
pub open spec fn cell_at(cells: Seq<Seq<BlockType>>, x: int, y: int) -> BlockType {
    if in_field(x, y) {
        cells[y][x]
    } else {
        BlockType::Empty
    }
}

/// A piece cannot occupy `(x, y)`: it lies outside the field or is taken.
pub open spec fn cell_blocked(cells: Seq<Seq<BlockType>>, x: int, y: int) -> bool {
    !in_field(x, y) || cells[y][x] != BlockType::Empty
}

/// Cell `(r, c)` of `shape` is filled and, with the shape's bottom-left cell
/// at `(px, py)`, lies on a place it cannot occupy.
pub open spec fn shape_cell_hits(
    cells: Seq<Seq<BlockType>>,
    shape: Seq<Seq<BlockType>>,
    px: int,
    py: int,
    r: int,
    c: int,
) -> bool {
    &&& 0 <= r < shape.len()
    &&& 0 <= c < shape[r].len()
    &&& shape[r][c] != BlockType::Empty
    &&& cell_blocked(cells, px + c, py + 1 - shape.len() + r)
}

/// Some filled cell of `shape`, placed with its bottom-left cell at
/// `(px, py)`, leaves the field or overlaps a cell that is taken.
pub open spec fn collides(cells: Seq<Seq<BlockType>>, shape: Seq<Seq<BlockType>>, px: int, py: int) -> bool {
    exists|r: int, c: int| shape_cell_hits(cells, shape, px, py, r, c)
}

/// The row a shape comes to rest on when it descends from `(px, py)` one row
/// at a time until the next row would collide. Descent also ends at the last
/// row an `i32` can name.
pub open spec fn landing_y(cells: Seq<Seq<BlockType>>, shape: Seq<Seq<BlockType>>, px: int, py: int) -> int
    decreases i32::MAX - py,
{
    if py >= i32::MAX || collides(cells, shape, px, py + 1) {
        py
    } else {
        landing_y(cells, shape, px, py + 1)
    }
}

/// The cell of `shape` that lies over field cell `(gx, gy)` when the shape's
/// bottom-left cell is at `(px, py)`; nothing where the shape does not reach.
pub open spec fn shape_cell_over(shape: Seq<Seq<BlockType>>, px: int, py: int, gx: int, gy: int) -> BlockType {
    let r = gy - (py + 1 - shape.len());
    let c = gx - px;
    if 0 <= r < shape.len() && 0 <= c < shape[r].len() {
        shape[r][c]
    } else {
        BlockType::Empty
    }
}

/// The field after `shape` was written into it at `(px, py)`: every filled
/// cell of the shape that lies inside the field replaces what was there.
pub open spec fn locked(cells: Seq<Seq<BlockType>>, shape: Seq<Seq<BlockType>>, px: int, py: int) -> Seq<Seq<BlockType>> {
    Seq::new(
        FIELD_HEIGHT_WITH_OUTSIDE as nat,
        |gy: int|
            Seq::new(
                FIELD_WIDTH as nat,
                |gx: int|
                    if shape_cell_over(shape, px, py, gx, gy) != BlockType::Empty {
                        shape_cell_over(shape, px, py, gx, gy)
                    } else {
                        cells[gy][gx]
                    },
            ),
    )
}

/// At least one filled cell of `shape`, placed at `(px, py)`, lies inside the
/// field.
pub open spec fn lands_in_field(shape: Seq<Seq<BlockType>>, px: int, py: int) -> bool {
    exists|gx: int, gy: int| in_field(gx, gy) && shape_cell_over(shape, px, py, gx, gy) != BlockType::Empty
}

/// Every cell of the row is taken.
pub open spec fn row_full(row: Seq<BlockType>) -> bool {
    forall|x: int| 0 <= x < row.len() ==> #[trigger] row[x] != BlockType::Empty
}

/// No cell of the row is taken.
pub open spec fn row_vacant(row: Seq<BlockType>) -> bool {
    forall|x: int| 0 <= x < row.len() ==> #[trigger] row[x] == BlockType::Empty
}

/// The field with every full row emptied and every other row untouched.
pub open spec fn lines_cleared(cells: Seq<Seq<BlockType>>) -> Seq<Seq<BlockType>> {
    Seq::new(cells.len(), |y: int| if row_full(cells[y]) { empty_row() } else { cells[y] })
}

/// How many of the rows above row `upto` are full.
pub open spec fn count_full_rows(cells: Seq<Seq<BlockType>>, upto: int) -> nat
    decreases upto,
{
    if upto <= 0 {
        0
    } else {
        count_full_rows(cells, upto - 1) + if row_full(cells[upto - 1]) { 1nat } else { 0nat }
    }
}

/// The field with rows `0..y` moved down by one over row `y`, and an empty
/// row at the top.
pub open spec fn rows_pulled_down(cells: Seq<Seq<BlockType>>, y: int) -> Seq<Seq<BlockType>> {
    Seq::new(
        cells.len(),
        |r: int|
            if r == 0 {
                empty_row()
            } else if r <= y {
                cells[r - 1]
            } else {
                cells[r]
            },
    )
}

/// One pass of gravity from row `y` up to row 1: wherever the row under
/// inspection is vacant, everything above it moves down by one, and the pass
/// goes on with the row above.
pub open spec fn drop_pass(cells: Seq<Seq<BlockType>>, y: int) -> Seq<Seq<BlockType>>
    decreases y,
{
    if y < 1 {
        cells
    } else if row_vacant(cells[y]) {
        drop_pass(rows_pulled_down(cells, y), y - 1)
    } else {
        drop_pass(cells, y - 1)
    }
}

/// No vacant row has a row with blocks above it.
pub open spec fn settled(cells: Seq<Seq<BlockType>>) -> bool {
    forall|upper: int, lower: int|
        0 <= upper < lower < cells.len() && row_vacant(#[trigger] cells[lower]) ==> row_vacant(
            #[trigger] cells[upper],
        )
}

/// A garbage row: every cell taken but the one in column `open_x`.
pub open spec fn garbage_row(open_x: int) -> Seq<BlockType> {
    Seq::new(
        FIELD_WIDTH as nat,
        |x: int| if x == open_x { BlockType::Empty } else { BlockType::Attacked },
    )
}

/// How many rows an attack of `lines` lines really pushes in: the field
/// cannot take more than it is tall.
pub open spec fn attack_height(lines: int) -> int {
    if lines < FIELD_HEIGHT_WITH_OUTSIDE {
        lines
    } else {
        FIELD_HEIGHT_WITH_OUTSIDE as int
    }
}

/// The field after an attack: everything moved up by the attack's height,
/// and that many garbage rows, all open in the same column, at the bottom.
pub open spec fn attacked(cells: Seq<Seq<BlockType>>, lines: int, open_x: int) -> Seq<Seq<BlockType>> {
    Seq::new(
        FIELD_HEIGHT_WITH_OUTSIDE as nat,
        |y: int|
            if y < FIELD_HEIGHT_WITH_OUTSIDE - attack_height(lines) {
                cells[y + attack_height(lines)]
            } else {
                garbage_row(open_x)
            },
    )
}

/// The attack pushes at least one taken cell out of the top of the field.
pub open spec fn pushed_out(cells: Seq<Seq<BlockType>>, lines: int) -> bool {
    exists|x: int, y: int|
        0 <= y < attack_height(lines) && 0 <= x < FIELD_WIDTH && #[trigger] cells[y][x]
            != BlockType::Empty
}

/// Column `gap` is the one and only cell of the row that is not taken.
pub open spec fn only_gap_at(row: Seq<BlockType>, gap: int) -> bool {
    &&& 0 <= gap < row.len()
    &&& forall|x: int| 0 <= x < row.len() ==> (#[trigger] row[x] == BlockType::Empty <==> x == gap)
}

/// The row has exactly one cell that is not taken.
pub open spec fn has_single_gap(row: Seq<BlockType>) -> bool {
    exists|gap: int| only_gap_at(row, gap)
}

/// The playfield. Row 0 is the top; the rows above the spawn row are a buffer
/// that is never shown.
#[derive(Debug)]
pub struct Field {
    grid_data: [[BlockType; FIELD_WIDTH]; FIELD_HEIGHT_WITH_OUTSIDE],
    force_gameover: bool,
}

/// The field cell under cell `(r, c)` of a shape of `rows` rows whose
/// bottom-left cell is at `position`, if that cell is inside the field.
fn field_cell_under(position: &Grid, rows: usize, r: usize, c: usize) -> (cell: Option<(usize, usize)>)
    ensures
        match cell {
            Some((gx, gy)) => gx == position.x + c && gy == position.y + 1 - rows + r && in_field(
                gx as int,
                gy as int,
            ),
            None => !in_field(position.x + c, position.y + 1 - rows + r),
        },
{
    let gx: i128 = position.x as i128 + c as i128;
    let gy: i128 = position.y as i128 + 1 - rows as i128 + r as i128;
    if 0 <= gx && gx < FIELD_WIDTH as i128 && 0 <= gy && gy < FIELD_HEIGHT_WITH_OUTSIDE as i128 {
        Some((gx as usize, gy as usize))
    } else {
        None
    }
}

/// Draws an unsigned 32-bit number from `rand`'s thread-local generator
/// (`rand::rng().random::<u32>()`). Nothing is claimed of the number drawn.
#[verifier::external_body]
fn random_u32() -> u32 {
    rand::rng().random::<u32>()
}

impl Field {
    /// The cells of the field, rows from top to bottom.
    pub closed spec fn view(&self) -> Seq<Seq<BlockType>> {
        Seq::new(FIELD_HEIGHT_WITH_OUTSIDE as nat, |y: int| self.grid_data@[y]@)
    }

    /// The sticky mark that the field has reached a state it cannot recover
    /// from.
    pub closed spec fn forced_game_over(&self) -> bool {
        self.force_gameover
    }

    /// Whatever a field holds, it has the field's dimensions.
    pub proof fn lemma_field_shaped(&self)
        ensures
            field_shaped(self@),
    {
    }

    /// A field with nothing in it.
    pub fn new() -> (field: Self)
        ensures
            field@ == empty_cells(),
            !field.forced_game_over(),
    {
        let field = Field {
            grid_data: [[BlockType::Empty; FIELD_WIDTH]; FIELD_HEIGHT_WITH_OUTSIDE],
            force_gameover: false,
        };
        assert forall|y: int| 0 <= y < FIELD_HEIGHT_WITH_OUTSIDE implies #[trigger] field@[y]
            == empty_row() by {
            assert(field@[y] =~= empty_row());
        }
        assert(field@ =~= empty_cells());
        field
    }

    /// Whether `position` names a cell of the field.
    pub fn check_position_in_field(&self, position: &Grid) -> (inside: bool)
        ensures
            inside == in_field(position.x as int, position.y as int),
    {
        position.x >= 0 && position.x < FIELD_WIDTH as i32 && position.y >= 0 && position.y
            < FIELD_HEIGHT_WITH_OUTSIDE as i32
    }

    /// What the field holds at `position`; nothing outside the field.
    pub fn get_grid_data(&self, position: &Grid) -> (cell: BlockType)
        ensures
            cell == cell_at(self@, position.x as int, position.y as int),
    {
        if self.check_position_in_field(position) {
            self.grid_data[position.y as usize][position.x as usize]
        } else {
            BlockType::Empty
        }
    }

    /// A copy of all cells, rows from top to bottom, buffer rows included.
    pub fn get_all_grid_data(&self) -> (cells: Vec<Vec<BlockType>>)
        ensures
            grid_view(cells) == self@,
    {
        let cells = array_to_vec_2d(self.grid_data);
        assert(grid_view(cells) =~= self@);
        cells
    }

    /// Tells whether `block_shape`, with its bottom-left cell at `position`,
    /// would leave the field or overlap a taken cell.
    pub fn check_collision(&self, block_shape: &Vec<Vec<BlockType>>, position: &Grid) -> (hit: bool)
        ensures
            hit == collides(self@, grid_view(*block_shape), position.x as int, position.y as int),
    {
        let ghost shape = grid_view(*block_shape);
        let ghost px = position.x as int;
        let ghost py = position.y as int;
        let rows = block_shape.len();
        let mut r: usize = 0;
        while r < rows
            invariant
                r <= rows,
                rows == block_shape.len(),
                shape == grid_view(*block_shape),
                px == position.x,
                py == position.y,
                forall|i: int, j: int| 0 <= i < r ==> !shape_cell_hits(self@, shape, px, py, i, j),
            decreases rows - r,
        {
            let mut c: usize = 0;
            while c < block_shape[r].len()
                invariant
                    r < rows,
                    rows == block_shape.len(),
                    c <= block_shape[r as int].len(),
                    shape == grid_view(*block_shape),
                    px == position.x,
                    py == position.y,
                    forall|j: int| 0 <= j < c ==> !shape_cell_hits(self@, shape, px, py, r as int, j),
                decreases block_shape[r as int].len() - c,
            {
                if block_shape[r][c] != BlockType::Empty {
                    match field_cell_under(position, rows, r, c) {
                        Some((gx, gy)) => {
                            if self.grid_data[gy][gx] != BlockType::Empty {
                                assert(shape_cell_hits(self@, shape, px, py, r as int, c as int));
                                return true;
                            }
                        },
                        None => {
                            assert(shape_cell_hits(self@, shape, px, py, r as int, c as int));
                            return true;
                        },
                    }
                }
                c += 1;
            }
            r += 1;
        }
        false
    }

    /// Where the shape would come to rest if it fell straight down from
    /// `now_position`. A shape without any block cannot rest on anything and
    /// stays where it is.
    pub fn get_ghost_position(&self, block_shape: &Vec<Vec<BlockType>>, now_position: &Grid) -> (rest: Grid)
        ensures
            rest.x == now_position.x,
            rest.y == if shape_has_block(grid_view(*block_shape)) {
                landing_y(self@, grid_view(*block_shape), now_position.x as int, now_position.y as int)
            } else {
                now_position.y as int
            },
    {
        if !shape_filled(block_shape) {
            return *now_position;
        }
        let ghost shape = grid_view(*block_shape);
        let x = now_position.x;
        let mut y: i32 = now_position.y;
        while y < i32::MAX
            invariant
                shape == grid_view(*block_shape),
                x == now_position.x,
                landing_y(self@, shape, x as int, now_position.y as int) == landing_y(
                    self@,
                    shape,
                    x as int,
                    y as int,
                ),
            decreases i32::MAX - y,
        {
            let next = Grid::new(x, y + 1);
            if self.check_collision(block_shape, &next) {
                return Grid::new(x, y);
            }
            y += 1;
        }
        Grid::new(x, y)
    }

    /// Tells whether the game is lost: the field was marked as beyond
    /// recovery, or the next piece would collide where it is spawned.
    pub fn check_game_over(&self, next_block: &BlockType) -> (over: bool)
        ensures
            over == (self.forced_game_over() || collides(
                self@,
                shape_of(*next_block),
                BLOCK_START_POSITION_X as int,
                BLOCK_START_POSITION_Y + spawn_padding(*next_block),
            )),
    {
        if self.force_gameover {
            return true;
        }
        let shape = block_shape(*next_block);
        assert(shape.len() == grid_view(shape).len());
        assert(shape_of(*next_block).len() <= 3);
        let padding = shape.len() - 1 - calc_block_bottom(&shape);
        let start_pos = Grid::new(BLOCK_START_POSITION_X, BLOCK_START_POSITION_Y + padding as i32);
        self.check_collision(&shape, &start_pos)
    }

    /// Writes every filled cell of `block_shape`, placed with its bottom-left
    /// cell at `position`, into the field. Cells that fall outside the field
    /// are dropped; a shape of which no cell lands inside marks the field as
    /// beyond recovery.
    pub fn lock_block(&mut self, block_shape: &Vec<Vec<BlockType>>, position: &Grid)
        ensures
            final(self)@ == locked(
                old(self)@,
                grid_view(*block_shape),
                position.x as int,
                position.y as int,
            ),
            final(self).forced_game_over() == (old(self).forced_game_over() || !lands_in_field(
                grid_view(*block_shape),
                position.x as int,
                position.y as int,
            )),
    {
        let ghost shape = grid_view(*block_shape);
        let ghost px = position.x as int;
        let ghost py = position.y as int;
        let ghost before = self@;
        let rows = block_shape.len();
        let mut put_in_field = false;
        let mut r: usize = 0;
        while r < rows
            invariant
                r <= rows,
                rows == block_shape.len(),
                shape == grid_view(*block_shape),
                px == position.x,
                py == position.y,
                before == old(self)@,
                self.force_gameover == old(self).force_gameover,
                forall|gx: int, gy: int|
                    in_field(gx, gy) ==> #[trigger] self.grid_data@[gy]@[gx] == if gy - (py + 1 - rows) < r
                        && shape_cell_over(shape, px, py, gx, gy) != BlockType::Empty {
                        shape_cell_over(shape, px, py, gx, gy)
                    } else {
                        before[gy][gx]
                    },
                put_in_field <==> exists|gx: int, gy: int|
                    in_field(gx, gy) && gy - (py + 1 - rows) < r && #[trigger] shape_cell_over(
                        shape,
                        px,
                        py,
                        gx,
                        gy,
                    ) != BlockType::Empty,
            decreases rows - r,
        {
            let mut c: usize = 0;
            while c < block_shape[r].len()
                invariant
                    r < rows,
                    rows == block_shape.len(),
                    c <= block_shape[r as int].len(),
                    shape == grid_view(*block_shape),
                    px == position.x,
                    py == position.y,
                    before == old(self)@,
                    self.force_gameover == old(self).force_gameover,
                    forall|gx: int, gy: int|
                        in_field(gx, gy) ==> #[trigger] self.grid_data@[gy]@[gx] == if (gy - (py + 1 - rows)
                            < r || (gy - (py + 1 - rows) == r && gx - px < c)) && shape_cell_over(
                            shape,
                            px,
                            py,
                            gx,
                            gy,
                        ) != BlockType::Empty {
                            shape_cell_over(shape, px, py, gx, gy)
                        } else {
                            before[gy][gx]
                        },
                    put_in_field <==> exists|gx: int, gy: int|
                        in_field(gx, gy) && (gy - (py + 1 - rows) < r || (gy - (py + 1 - rows) == r
                            && gx - px < c)) && #[trigger] shape_cell_over(shape, px, py, gx, gy)
                            != BlockType::Empty,
                decreases block_shape[r as int].len() - c,
            {
                let cell = block_shape[r][c];
                if cell != BlockType::Empty {
                    match field_cell_under(position, rows, r, c) {
                        Some((gx, gy)) => {
                            self.grid_data[gy][gx] = cell;
                            put_in_field = true;
                            assert(shape_cell_over(shape, px, py, gx as int, gy as int) == cell);
                        },
                        None => {},
                    }
                }
                c += 1;
            }
            r += 1;
        }
        if !put_in_field {
            self.force_gameover = true;
        }
        proof {
            let target = locked(before, shape, px, py);
            assert forall|gy: int| 0 <= gy < FIELD_HEIGHT_WITH_OUTSIDE implies #[trigger] self@[gy]
                == target[gy] by {
                assert forall|gx: int| 0 <= gx < FIELD_WIDTH implies #[trigger] self.grid_data@[gy]@[gx]
                    == target[gy][gx] by {
                    assert(in_field(gx, gy));
                }
                assert(self@[gy] =~= target[gy]);
            }
            assert(self@ =~= target);
        }
    }

    /// Empties every full row and tells how many there were. The rows above
    /// stay where they are.
    pub fn clear_lines(&mut self) -> (cleared: u32)
        ensures
            final(self)@ == lines_cleared(old(self)@),
            cleared == count_full_rows(old(self)@, FIELD_HEIGHT_WITH_OUTSIDE as int),
            final(self).forced_game_over() == old(self).forced_game_over(),
    {
        let ghost before = self@;
        let mut cleared: u32 = 0;
        let mut y: usize = 0;
        while y < FIELD_HEIGHT_WITH_OUTSIDE
            invariant
                y <= FIELD_HEIGHT_WITH_OUTSIDE,
                before == old(self)@,
                self.force_gameover == old(self).force_gameover,
                cleared == count_full_rows(before, y as int),
                cleared <= y,
                forall|i: int| 0 <= i < y ==> (#[trigger] self.grid_data@[i])@ == lines_cleared(before)[i],
                forall|i: int| y <= i < FIELD_HEIGHT_WITH_OUTSIDE ==> (#[trigger] self.grid_data@[i])@ == before[i],
            decreases FIELD_HEIGHT_WITH_OUTSIDE - y,
        {
            if self.row_is_full(y) {
                self.grid_data[y] = [BlockType::Empty; FIELD_WIDTH];
                assert(self@[y as int] =~= empty_row());
                cleared += 1;
            }
            y += 1;
        }
        assert(self@ =~= lines_cleared(before));
        cleared
    }

    /// Tells whether every cell of row `y` is taken.
    fn row_is_full(&self, y: usize) -> (full: bool)
        requires
            y < FIELD_HEIGHT_WITH_OUTSIDE,
        ensures
            full == row_full(self@[y as int]),
    {
        let mut x: usize = 0;
        while x < FIELD_WIDTH
            invariant
                x <= FIELD_WIDTH,
                y < FIELD_HEIGHT_WITH_OUTSIDE,
                forall|j: int| 0 <= j < x ==> #[trigger] self@[y as int][j] != BlockType::Empty,
            decreases FIELD_WIDTH - x,
        {
            if self.grid_data[y][x] == BlockType::Empty {
                return false;
            }
            x += 1;
        }
        true
    }

    /// Tells whether no cell of row `y` is taken.
    fn row_is_vacant(&self, y: usize) -> (vacant: bool)
        requires
            y < FIELD_HEIGHT_WITH_OUTSIDE,
        ensures
            vacant == row_vacant(self@[y as int]),
    {
        let mut x: usize = 0;
        while x < FIELD_WIDTH
            invariant
                x <= FIELD_WIDTH,
                y < FIELD_HEIGHT_WITH_OUTSIDE,
                forall|j: int| 0 <= j < x ==> #[trigger] self@[y as int][j] == BlockType::Empty,
            decreases FIELD_WIDTH - x,
        {
            if self.grid_data[y][x] != BlockType::Empty {
                return false;
            }
            x += 1;
        }
        true
    }

    /// Lets the rows fall: one pass from the bottom row up to row 1, in which
    /// every vacant row met is closed by moving everything above it down by
    /// one. A row that moves into the place just inspected is not inspected
    /// again in the same pass.
    pub fn drop_lines(&mut self)
        ensures
            final(self)@ == drop_pass(old(self)@, FIELD_HEIGHT_WITH_OUTSIDE - 1),
            final(self).forced_game_over() == old(self).forced_game_over(),
    {
        let mut y: usize = FIELD_HEIGHT_WITH_OUTSIDE - 1;
        while y >= 1
            invariant
                y < FIELD_HEIGHT_WITH_OUTSIDE,
                self.force_gameover == old(self).force_gameover,
                drop_pass(self@, y as int) == drop_pass(old(self)@, FIELD_HEIGHT_WITH_OUTSIDE - 1),
            decreases y,
        {
            if self.row_is_vacant(y) {
                let ghost start = self@;
                let mut pull_y: usize = y;
                while pull_y >= 1
                    invariant
                        pull_y <= y,
                        y < FIELD_HEIGHT_WITH_OUTSIDE,
                        self.force_gameover == old(self).force_gameover,
                        forall|i: int| 0 <= i <= pull_y ==> (#[trigger] self.grid_data@[i])@ == start[i],
                        forall|i: int| pull_y < i <= y ==> (#[trigger] self.grid_data@[i])@ == start[i - 1],
                        forall|i: int| y < i < FIELD_HEIGHT_WITH_OUTSIDE ==> (#[trigger] self.grid_data@[i])@ == start[i],
                    decreases pull_y,
                {
                    self.grid_data[pull_y] = self.grid_data[pull_y - 1];
                    pull_y -= 1;
                }
                self.grid_data[0] = [BlockType::Empty; FIELD_WIDTH];
                assert(self@[0] =~= empty_row());
                assert(self@ =~= rows_pulled_down(start, y as int));
            }
            y -= 1;
        }
    }

    /// Pushes `up_lines` garbage rows in from the bottom, all of them open in
    /// column `open_pos_x`. Everything else moves up; what leaves the top of
    /// the field is lost, and if any of it was a taken cell the field is
    /// marked as beyond recovery. More rows than the field has count as a
    /// field full of garbage.
    pub fn push_garbage(&mut self, up_lines: usize, open_pos_x: usize)
        ensures
            final(self)@ == attacked(old(self)@, up_lines as int, open_pos_x as int),
            final(self).forced_game_over() == (old(self).forced_game_over() || pushed_out(
                old(self)@,
                up_lines as int,
            )),
    {
        let ghost before = self@;
        let lines: usize = if up_lines < FIELD_HEIGHT_WITH_OUTSIDE {
            up_lines
        } else {
            FIELD_HEIGHT_WITH_OUTSIDE
        };
        let mut lost = false;
        let mut y: usize = 0;
        while y < lines
            invariant
                y <= lines,
                lines <= FIELD_HEIGHT_WITH_OUTSIDE,
                self@ == before,
                self.force_gameover == old(self).force_gameover,
                lost <==> exists|i: int, j: int|
                    0 <= i < y && 0 <= j < FIELD_WIDTH && #[trigger] before[i][j] != BlockType::Empty,
            decreases lines - y,
        {
            if !self.row_is_vacant(y) {
                proof {
                    let j = choose|j: int|
                        0 <= j < FIELD_WIDTH && before[y as int][j] != BlockType::Empty;
                    assert(before[y as int][j] != BlockType::Empty);
                }
                lost = true;
            }
            y += 1;
        }
        assert(lost == pushed_out(before, up_lines as int));
        if lost {
            self.force_gameover = true;
        }
        let mut y: usize = lines;
        while y < FIELD_HEIGHT_WITH_OUTSIDE
            invariant
                lines <= y <= FIELD_HEIGHT_WITH_OUTSIDE,
                before == old(self)@,
                self.force_gameover == (old(self).force_gameover || lost),
                forall|i: int| 0 <= i < y - lines ==> (#[trigger] self.grid_data@[i])@ == before[i + lines],
                forall|i: int| y - lines <= i < FIELD_HEIGHT_WITH_OUTSIDE ==> (#[trigger] self.grid_data@[i])@ == before[i],
            decreases FIELD_HEIGHT_WITH_OUTSIDE - y,
        {
            self.grid_data[y - lines] = self.grid_data[y];
            y += 1;
        }
        let mut y: usize = FIELD_HEIGHT_WITH_OUTSIDE - lines;
        while y < FIELD_HEIGHT_WITH_OUTSIDE
            invariant
                FIELD_HEIGHT_WITH_OUTSIDE - lines <= y <= FIELD_HEIGHT_WITH_OUTSIDE,
                lines <= FIELD_HEIGHT_WITH_OUTSIDE,
                before == old(self)@,
                self.force_gameover == (old(self).force_gameover || lost),
                forall|i: int|
                    0 <= i < FIELD_HEIGHT_WITH_OUTSIDE - lines ==> (#[trigger] self.grid_data@[i])@ == before[i
                        + lines],
                forall|i: int|
                    FIELD_HEIGHT_WITH_OUTSIDE - lines <= i < y ==> (#[trigger] self.grid_data@[i])@ == garbage_row(
                        open_pos_x as int,
                    ),
            decreases FIELD_HEIGHT_WITH_OUTSIDE - y,
        {
            let mut x: usize = 0;
            while x < FIELD_WIDTH
                invariant
                    x <= FIELD_WIDTH,
                    FIELD_HEIGHT_WITH_OUTSIDE - lines <= y < FIELD_HEIGHT_WITH_OUTSIDE,
                    lines <= FIELD_HEIGHT_WITH_OUTSIDE,
                    before == old(self)@,
                    self.force_gameover == (old(self).force_gameover || lost),
                    forall|i: int|
                        0 <= i < FIELD_HEIGHT_WITH_OUTSIDE - lines ==> (#[trigger] self.grid_data@[i])@
                            == before[i + lines],
                    forall|i: int|
                        FIELD_HEIGHT_WITH_OUTSIDE - lines <= i < y ==> (#[trigger] self.grid_data@[i])@
                            == garbage_row(open_pos_x as int),
                    forall|j: int|
                        0 <= j < x ==> #[trigger] self.grid_data@[y as int]@[j] == garbage_row(
                            open_pos_x as int,
                        )[j],
                decreases FIELD_WIDTH - x,
            {
                if x == open_pos_x {
                    self.grid_data[y][x] = BlockType::Empty;
                } else {
                    self.grid_data[y][x] = BlockType::Attacked;
                }
                x += 1;
            }
            assert(self@[y as int] =~= garbage_row(open_pos_x as int));
            y += 1;
        }
        assert(self@ =~= attacked(before, up_lines as int, open_pos_x as int));
    }

    /// Takes an attack of `up_lines` lines: draws the open column at random,
    /// once for the whole attack, and pushes the garbage rows in.
    pub fn apply_attack(&mut self, up_lines: usize)
        ensures
            exists|open_x: int|
                0 <= open_x < FIELD_WIDTH && final(self)@ == #[trigger] attacked(
                    old(self)@,
                    up_lines as int,
                    open_x,
                ),
            final(self).forced_game_over() == (old(self).forced_game_over() || pushed_out(
                old(self)@,
                up_lines as int,
            )),
    {
        let open_pos_x = random_u32() as usize % FIELD_WIDTH;
        self.push_garbage(up_lines, open_pos_x);
    }
}

/// On a field with nothing in it, a piece at the place where it is spawned
/// collides with nothing, whatever kind it is.
pub proof fn lemma_spawn_is_free(block_type: BlockType)
    ensures
        !collides(
            empty_cells(),
            shape_of(block_type),
            BLOCK_START_POSITION_X as int,
            BLOCK_START_POSITION_Y + spawn_padding(block_type),
        ),
{
    let shape = shape_of(block_type);
    reveal_with_fuel(crate::gameplay::block::block_datas::bottom_row, 4);
    crate::gameplay::block::block_datas::lemma_bottom_row_bound(shape);
    let py = BLOCK_START_POSITION_Y + spawn_padding(block_type);
    assert(17 <= py <= 19);
    assert forall|r: int, c: int| !shape_cell_hits(empty_cells(), shape, 2, py, r, c) by {
        if 0 <= r < shape.len() && 0 <= c < shape[r].len() {
            assert(in_field(2 + c, py + 1 - shape.len() + r));
        }
    }
}

/// Clearing lines leaves no full row: a second clearing right after the
/// first finds nothing and changes nothing.
pub proof fn lemma_clear_lines_idempotent(cells: Seq<Seq<BlockType>>)
    requires
        field_shaped(cells),
    ensures
        count_full_rows(lines_cleared(cells), FIELD_HEIGHT_WITH_OUTSIDE as int) == 0,
        lines_cleared(lines_cleared(cells)) == lines_cleared(cells),
{
    let once = lines_cleared(cells);
    assert forall|y: int| 0 <= y < once.len() implies !row_full(#[trigger] once[y]) by {
        if row_full(cells[y]) {
            assert(once[y][0] == BlockType::Empty);
        }
    }
    lemma_no_full_rows(once, FIELD_HEIGHT_WITH_OUTSIDE as int);
    assert(lines_cleared(once) =~= once);
}

/// Where no row is full, the count of full rows is zero.
proof fn lemma_no_full_rows(cells: Seq<Seq<BlockType>>, upto: int)
    requires
        upto <= cells.len(),
        forall|y: int| 0 <= y < cells.len() ==> !row_full(#[trigger] cells[y]),
    ensures
        count_full_rows(cells, upto) == 0,
    decreases upto,
{
    if upto > 0 {
        lemma_no_full_rows(cells, upto - 1);
    }
}

/// Gravity is idle on a settled field: once no vacant row has blocks above
/// it, a pass of gravity changes nothing.
pub proof fn lemma_drop_settled(cells: Seq<Seq<BlockType>>)
    requires
        field_shaped(cells),
        settled(cells),
    ensures
        drop_pass(cells, FIELD_HEIGHT_WITH_OUTSIDE - 1) == cells,
{
    lemma_drop_pass_settled(cells, FIELD_HEIGHT_WITH_OUTSIDE - 1);
}

proof fn lemma_drop_pass_settled(cells: Seq<Seq<BlockType>>, y: int)
    requires
        field_shaped(cells),
        settled(cells),
        y < FIELD_HEIGHT_WITH_OUTSIDE,
    ensures
        drop_pass(cells, y) == cells,
    decreases y,
{
    if y >= 1 {
        if row_vacant(cells[y]) {
            let pulled = rows_pulled_down(cells, y);
            assert forall|r: int| 0 <= r < cells.len() implies #[trigger] pulled[r] == cells[r] by {
                if r <= y {
                    assert(row_vacant(cells[r]));
                    assert(cells[r] =~= empty_row());
                    if r > 0 {
                        assert(row_vacant(cells[r - 1]));
                        assert(cells[r - 1] =~= empty_row());
                    }
                }
            }
            assert(pulled =~= cells);
        }
        lemma_drop_pass_settled(cells, y - 1);
    }
}

/// An attack on a field with nothing in it leaves the bottom rows, as many
/// as the attack has lines, with exactly one open cell each, and every row
/// above them vacant.
pub proof fn lemma_attack_on_empty_field(lines: int, open_x: int)
    requires
        0 <= lines <= FIELD_HEIGHT_WITH_OUTSIDE,
        0 <= open_x < FIELD_WIDTH,
    ensures
        forall|y: int|
            FIELD_HEIGHT_WITH_OUTSIDE - lines <= y < FIELD_HEIGHT_WITH_OUTSIDE ==> has_single_gap(
                #[trigger] attacked(empty_cells(), lines, open_x)[y],
            ),
        forall|y: int|
            0 <= y < FIELD_HEIGHT_WITH_OUTSIDE - lines ==> row_vacant(
                #[trigger] attacked(empty_cells(), lines, open_x)[y],
            ),
        !pushed_out(empty_cells(), lines),
{
    let after = attacked(empty_cells(), lines, open_x);
    assert forall|y: int|
        FIELD_HEIGHT_WITH_OUTSIDE - lines <= y < FIELD_HEIGHT_WITH_OUTSIDE implies has_single_gap(
        #[trigger] after[y],
    ) by {
        assert(only_gap_at(after[y], open_x));
    }
}

} // verus!
