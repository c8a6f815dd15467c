//! Operations on matrices stored as a vector of rows.

use vstd::prelude::*;

verus! {

/// The rows of `m` as a sequence of sequences: the model every matrix
/// contract in this crate is stated over.
pub open spec fn grid_view<T>(m: Vec<Vec<T>>) -> Seq<Seq<T>> {
    Seq::new(m.len() as nat, |r: int| m[r]@)
}

/// A matrix is square when every row is as long as the matrix is tall.
pub open spec fn is_square<T>(m: Seq<Seq<T>>) -> bool {
    forall|r: int| 0 <= r < m.len() ==> (#[trigger] m[r]).len() == m.len()
}

/// `m` turned a quarter turn to the right; anything that is not square is
/// left as it is.
pub open spec fn rotated_clockwise<T>(m: Seq<Seq<T>>) -> Seq<Seq<T>> {
    if is_square(m) {
        Seq::new(m.len(), |r: int| Seq::new(m.len(), |c: int| m[m.len() - 1 - c][r]))
    } else {
        m
    }
}

/// `m` turned a quarter turn to the left; anything that is not square is
/// left as it is.
pub open spec fn rotated_counterclockwise<T>(m: Seq<Seq<T>>) -> Seq<Seq<T>> {
    if is_square(m) {
        Seq::new(m.len(), |r: int| Seq::new(m.len(), |c: int| m[c][m.len() - 1 - r]))
    } else {
        m
    }
}

/// `target` with every cell that also exists in `source` replaced by the
/// cell of `source`; the shape of `target` is kept.
pub open spec fn overlaid<T>(target: Seq<Seq<T>>, source: Seq<Seq<T>>) -> Seq<Seq<T>> {
    Seq::new(
        target.len(),
        |y: int|
            Seq::new(
                target[y].len(),
                |x: int|
                    if y < source.len() && x < source[y].len() {
                        source[y][x]
                    } else {
                        target[y][x]
                    },
            ),
    )
}

/// A quarter turn to the right followed by a quarter turn to the left gives
/// the matrix back, and so does the opposite order.
pub proof fn lemma_rotation_round_trip<T>(m: Seq<Seq<T>>)
    ensures
        rotated_counterclockwise(rotated_clockwise(m)) == m,
        rotated_clockwise(rotated_counterclockwise(m)) == m,
{
    if is_square(m) {
        let n = m.len();
        let cw = rotated_clockwise(m);
        let ccw = rotated_counterclockwise(m);
        assert(is_square(cw));
        assert(is_square(ccw));
        let back = rotated_counterclockwise(cw);
        let forth = rotated_clockwise(ccw);
        assert(back.len() == n && forth.len() == n);
        assert forall|r: int| 0 <= r < n implies #[trigger] back[r] == m[r] && forth[r] == m[r] by {
            assert(m[r].len() == n);
            assert(back[r] =~= m[r]);
            assert(forth[r] =~= m[r]);
        }
        assert(back =~= m);
        assert(forth =~= m);
    }
}

/// Copies a two-dimensional array into a vector of rows.
pub fn array_to_vec_2d<T: Copy, const ROWS: usize, const COLS: usize>(
    array: [[T; COLS]; ROWS],
) -> (v: Vec<Vec<T>>)
    ensures
        grid_view(v) == Seq::new(ROWS as nat, |r: int| array@[r]@),
{
    let mut v: Vec<Vec<T>> = Vec::new();
    let mut r: usize = 0;
    while r < ROWS
        invariant
            r <= ROWS,
            v.len() == r,
            forall|i: int| 0 <= i < r ==> (#[trigger] v[i])@ == array@[i]@,
        decreases ROWS - r,
    {
        let mut row: Vec<T> = Vec::new();
        let mut c: usize = 0;
        while c < COLS
            invariant
                c <= COLS,
                r < ROWS,
                row.len() == c,
                forall|j: int| 0 <= j < c ==> #[trigger] row[j] == array@[r as int]@[j],
            decreases COLS - c,
        {
            row.push(array[r][c]);
            c += 1;
        }
        assert(row@ =~= array@[r as int]@);
        v.push(row);
        r += 1;
    }
    assert(grid_view(v) =~= Seq::new(ROWS as nat, |r: int| array@[r]@));
    v
}

/// Tells whether every row is as long as the matrix is tall.
fn check_square<T>(matrix: &Vec<Vec<T>>) -> (square: bool)
    ensures
        square == is_square(grid_view(*matrix)),
{
    let n = matrix.len();
    let mut r: usize = 0;
    while r < n
        invariant
            r <= n,
            n == matrix.len(),
            forall|i: int| 0 <= i < r ==> (#[trigger] matrix[i]).len() == n,
        decreases n - r,
    {
        if matrix[r].len() != n {
            assert(grid_view(*matrix)[r as int].len() != grid_view(*matrix).len());
            return false;
        }
        r += 1;
    }
    assert forall|i: int| 0 <= i < grid_view(*matrix).len() implies (#[trigger] grid_view(
        *matrix,
    )[i]).len() == grid_view(*matrix).len() by {
        assert(matrix[i].len() == n);
    }
    true
}

/// Copies a matrix cell by cell.
fn copy_matrix<T: Copy>(matrix: &Vec<Vec<T>>) -> (copy: Vec<Vec<T>>)
    ensures
        grid_view(copy) == grid_view(*matrix),
{
    let mut copy: Vec<Vec<T>> = Vec::new();
    let mut r: usize = 0;
    while r < matrix.len()
        invariant
            r <= matrix.len(),
            copy.len() == r,
            forall|i: int| 0 <= i < r ==> (#[trigger] copy[i])@ == matrix[i]@,
        decreases matrix.len() - r,
    {
        let mut row: Vec<T> = Vec::new();
        let mut c: usize = 0;
        while c < matrix[r].len()
            invariant
                r < matrix.len(),
                c <= matrix[r as int].len(),
                row.len() == c,
                forall|j: int| 0 <= j < c ==> #[trigger] row[j] == matrix[r as int][j],
            decreases matrix[r as int].len() - c,
        {
            row.push(matrix[r][c]);
            c += 1;
        }
        assert(row@ =~= matrix[r as int]@);
        copy.push(row);
        r += 1;
    }
    assert(grid_view(copy) =~= grid_view(*matrix));
    copy
}

/// Turns a square matrix a quarter turn to the right. A matrix that is not
/// square comes back as an unrotated copy.
pub fn rotate_vec_90_clockwise<T: Copy>(matrix: &Vec<Vec<T>>) -> (rotated: Vec<Vec<T>>)
    ensures
        grid_view(rotated) == rotated_clockwise(grid_view(*matrix)),
{
    if !check_square(matrix) {
        return copy_matrix(matrix);
    }
    let n = matrix.len();
    let ghost m = grid_view(*matrix);
    let mut rotated: Vec<Vec<T>> = Vec::new();
    let mut r: usize = 0;
    while r < n
        invariant
            r <= n,
            n == matrix.len(),
            m == grid_view(*matrix),
            is_square(m),
            rotated.len() == r,
            forall|i: int| 0 <= i < r ==> (#[trigger] rotated[i])@ == rotated_clockwise(m)[i],
        decreases n - r,
    {
        let mut row: Vec<T> = Vec::new();
        let mut c: usize = 0;
        while c < n
            invariant
                c <= n,
                r < n,
                n == matrix.len(),
                m == grid_view(*matrix),
                is_square(m),
                row.len() == c,
                forall|j: int| 0 <= j < c ==> #[trigger] row[j] == m[n - 1 - j][r as int],
            decreases n - c,
        {
            assert(m[n - 1 - c].len() == n);
            row.push(matrix[n - 1 - c][r]);
            c += 1;
        }
        assert(row@ =~= rotated_clockwise(m)[r as int]);
        rotated.push(row);
        r += 1;
    }
    assert(grid_view(rotated) =~= rotated_clockwise(m));
    rotated
}

/// Turns a square matrix a quarter turn to the left. A matrix that is not
/// square comes back as an unrotated copy.
pub fn rotate_vec_90_counterclockwise<T: Copy>(matrix: &Vec<Vec<T>>) -> (rotated: Vec<Vec<T>>)
    ensures
        grid_view(rotated) == rotated_counterclockwise(grid_view(*matrix)),
{
    if !check_square(matrix) {
        return copy_matrix(matrix);
    }
    let n = matrix.len();
    let ghost m = grid_view(*matrix);
    let mut rotated: Vec<Vec<T>> = Vec::new();
    let mut r: usize = 0;
    while r < n
        invariant
            r <= n,
            n == matrix.len(),
            m == grid_view(*matrix),
            is_square(m),
            rotated.len() == r,
            forall|i: int|
                0 <= i < r ==> (#[trigger] rotated[i])@ == rotated_counterclockwise(m)[i],
        decreases n - r,
    {
        let mut row: Vec<T> = Vec::new();
        let mut c: usize = 0;
        while c < n
            invariant
                c <= n,
                r < n,
                n == matrix.len(),
                m == grid_view(*matrix),
                is_square(m),
                row.len() == c,
                forall|j: int| 0 <= j < c ==> #[trigger] row[j] == m[j][n - 1 - r],
            decreases n - c,
        {
            assert(m[c as int].len() == n);
            row.push(matrix[c][n - 1 - r]);
            c += 1;
        }
        assert(row@ =~= rotated_counterclockwise(m)[r as int]);
        rotated.push(row);
        r += 1;
    }
    assert(grid_view(rotated) =~= rotated_counterclockwise(m));
    rotated
}

/// Copies `source` over `target` cell by cell. Where the two differ in size,
/// only the cells that exist in both are copied.
pub fn copy_vec_2d<T: Copy>(target: &mut Vec<Vec<T>>, source: &Vec<Vec<T>>)
    ensures
        grid_view(*final(target)) == overlaid(grid_view(*old(target)), grid_view(*source)),
{
    let ghost before = grid_view(*target);
    let ghost src = grid_view(*source);
    let mut y: usize = 0;
    while y < source.len() && y < target.len()
        invariant
            before == grid_view(*old(target)),
            src == grid_view(*source),
            target.len() == before.len(),
            forall|i: int| 0 <= i < y && i < before.len() ==> (#[trigger] target[i])@ == overlaid(before, src)[i],
            forall|i: int| y <= i < before.len() ==> (#[trigger] target[i])@ == before[i],
        decreases source.len() - y,
    {
        let mut x: usize = 0;
        while x < source[y].len() && x < target[y].len()
            invariant
                before == grid_view(*old(target)),
                src == grid_view(*source),
                y < source.len(),
                y < target.len(),
                x <= source[y as int].len(),
                x <= target[y as int].len(),
                target.len() == before.len(),
                target[y as int].len() == before[y as int].len(),
                forall|i: int| 0 <= i < y ==> (#[trigger] target[i])@ == overlaid(before, src)[i],
                forall|i: int| y < i < before.len() ==> (#[trigger] target[i])@ == before[i],
                forall|j: int| 0 <= j < x && j < before[y as int].len() ==> #[trigger] target[y as int][j] == src[y as int][j],
                forall|j: int| x <= j < before[y as int].len() ==> #[trigger] target[y as int][j] == before[y as int][j],
            decreases source[y as int].len() - x,
        {
            let cell = source[y][x];
            target[y][x] = cell;
            x += 1;
        }
        assert(target[y as int]@ =~= overlaid(before, src)[y as int]);
        y += 1;
    }
    assert forall|i: int| 0 <= i < before.len() implies (#[trigger] target[i])@ == overlaid(before, src)[i] by {
        if i >= y {
            assert(target[i]@ =~= overlaid(before, src)[i]);
        }
    }
    assert(grid_view(*target) =~= overlaid(before, src));
}

} // verus!
