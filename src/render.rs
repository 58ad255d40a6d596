//! The per-pixel render loop. Each cell of the frame receives the glyph that a
//! caller-supplied ray cast returns for that cell's pixel offset from the frame
//! centre; the loop runs either in order or as a parallel map.
use vstd::prelude::*;
use rayon::iter::IntoParallelIterator;
use rayon::iter::ParallelIterator;
use crate::frame::FrameBuffer;

verus! {

/// Horizontal offset of cell `i` from the centre column.
pub open spec fn pixel_x(i: int, cols: int) -> int {
    i % cols - cols / 2
}

/// Vertical offset of cell `i` from the centre row.
pub open spec fn pixel_y(i: int, rows: int, cols: int) -> int {
    i / cols - rows / 2
}

/// `cells` is a frame of `rows` by `cols` in which every cell holds a glyph that
/// `cast` may return for that cell's pixel offset.
pub open spec fn renders<F: Fn(i64, i64) -> char>(
    cast: F,
    rows: nat,
    cols: nat,
    cells: Seq<char>,
) -> bool {
    &&& cells.len() == rows * cols
    &&& forall|i: int|
        0 <= i < rows * cols ==> cast.ensures(
            (pixel_x(i, cols as int) as i64, pixel_y(i, rows as int, cols as int) as i64),
            #[trigger] cells[i],
        )
}

/// `cast` returns one glyph for each pixel offset: it reads no state that
/// changes between calls.
pub open spec fn is_pure<F: Fn(i64, i64) -> char>(cast: F) -> bool {
    forall|x: i64, y: i64, c1: char, c2: char|
        cast.ensures((x, y), c1) && cast.ensures((x, y), c2) ==> c1 == c2
}

/// The offset of cell `index` from the centre of a `rows` by `cols` frame:
/// `(index % cols - cols / 2, index / cols - rows / 2)`.
pub fn pixel_offset(index: usize, rows: usize, cols: usize) -> (r: (i64, i64))
    requires
        index < rows * cols,
        rows * cols <= i64::MAX,
    ensures
        r.0 == pixel_x(index as int, cols as int),
        r.1 == pixel_y(index as int, rows as int, cols as int),
{
    proof {
        assert(cols > 0 && rows > 0) by (nonlinear_arith)
            requires index < rows * cols, index >= 0, rows >= 0, cols >= 0;
        assert(rows <= rows * cols && cols <= rows * cols) by (nonlinear_arith)
            requires rows > 0, cols > 0;
    }
    let x: i64 = (index % cols) as i64 - (cols / 2) as i64;
    let y: i64 = (index / cols) as i64 - (rows / 2) as i64;
    (x, y)
}

/// Relies on rayon's `into_par_iter` over `0..n`, `map` and `collect` into a
/// `Vec`: `f` is called on every index and the results stand in index order,
/// whatever order the workers finish in.
#[verifier::external_body]
fn par_map_indices<F: Fn(usize) -> char + Sync + Send>(n: usize, f: F) -> (r: Vec<char>)
    requires
        forall|i: usize| i < n ==> f.requires((i,)),
    ensures
        r@.len() == n,
        forall|i: int| 0 <= i < n ==> f.ensures((i as usize,), #[trigger] r@[i]),
{
    (0..n).into_par_iter().map(f).collect()
}

/// Renders a `rows` by `cols` frame one cell after the other, in row-major order.
pub fn render_sequential<F: Fn(i64, i64) -> char>(rows: usize, cols: usize, cast: F) -> (f:
    FrameBuffer)
    requires
        rows * cols <= i64::MAX,
        rows * cols <= usize::MAX,
        forall|x: i64, y: i64| cast.requires((x, y)),
    ensures
        f.wf(),
        f.spec_rows() == rows,
        f.spec_cols() == cols,
        renders(cast, rows as nat, cols as nat, f.spec_cells()),
{
    let n: usize = rows * cols;
    let mut cells: Vec<char> = Vec::new();
    let mut i: usize = 0;
    while i < n
        invariant
            n == rows * cols,
            n <= i64::MAX,
            i <= n,
            cells@.len() == i,
            forall|x: i64, y: i64| cast.requires((x, y)),
            forall|j: int|
                0 <= j < i ==> cast.ensures(
                    (pixel_x(j, cols as int) as i64, pixel_y(j, rows as int, cols as int) as i64),
                    #[trigger] cells@[j],
                ),
        decreases n - i,
    {
        let (x, y) = pixel_offset(i, rows, cols);
        let c = cast(x, y);
        cells.push(c);
        i = i + 1;
    }
    let f = FrameBuffer::from_cells(rows, cols, cells);
    match f {
        Some(fb) => fb,
        None => {
            proof { assert(false); }
            FrameBuffer::new(rows, cols)
        },
    }
}

/// Renders a `rows` by `cols` frame as a parallel map over all cells, with the
/// glyphs gathered in row-major order.
pub fn render_parallel<F: Fn(i64, i64) -> char + Sync>(rows: usize, cols: usize, cast: F) -> (f:
    FrameBuffer)
    requires
        rows * cols <= i64::MAX,
        rows * cols <= usize::MAX,
        forall|x: i64, y: i64| cast.requires((x, y)),
    ensures
        f.wf(),
        f.spec_rows() == rows,
        f.spec_cols() == cols,
        renders(cast, rows as nat, cols as nat, f.spec_cells()),
{
    let n: usize = rows * cols;
    let cast_ref = &cast;
    let per_cell = move |i: usize| -> (c: char)
        requires
            i < rows * cols,
            rows * cols <= i64::MAX,
            forall|x: i64, y: i64| cast_ref.requires((x, y)),
        ensures
            cast_ref.ensures(
                (pixel_x(i as int, cols as int) as i64, pixel_y(i as int, rows as int, cols as int) as i64),
                c,
            ),
    {
        let (x, y) = pixel_offset(i, rows, cols);
        cast_ref(x, y)
    };
    let cells = par_map_indices(n, per_cell);
    proof {
        assert forall|j: int| 0 <= j < rows * cols implies cast.ensures(
            (pixel_x(j, cols as int) as i64, pixel_y(j, rows as int, cols as int) as i64),
            #[trigger] cells@[j],
        ) by {
            assert(per_cell.ensures((j as usize,), cells@[j]));
        }
    }
    let f = FrameBuffer::from_cells(rows, cols, cells);
    match f {
        Some(fb) => fb,
        None => {
            proof { assert(false); }
            FrameBuffer::new(rows, cols)
        },
    }
}

/// For a pure ray cast, any two frames that it renders at one size hold the same
/// glyphs: so the parallel and the sequential render give identical frames.
pub proof fn lemma_parallel_matches_sequential<F: Fn(i64, i64) -> char>(
    cast: F,
    rows: nat,
    cols: nat,
    sequential: Seq<char>,
    parallel: Seq<char>,
)
    requires
        is_pure(cast),
        renders(cast, rows, cols, sequential),
        renders(cast, rows, cols, parallel),
    ensures
        sequential == parallel,
{
    assert forall|i: int| 0 <= i < sequential.len() implies sequential[i] == parallel[i] by {
        let x = pixel_x(i, cols as int) as i64;
        let y = pixel_y(i, rows as int, cols as int) as i64;
        assert(cast.ensures((x, y), sequential[i]));
        assert(cast.ensures((x, y), parallel[i]));
    }
    assert(sequential =~= parallel);
}

} // verus!
