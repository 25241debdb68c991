//! The walk over a triangle's sample grid.
use crate::graphics_pipeline::EFaceCullingMode;
use crate::renderer::{RenderResult, Renderer};
use vstd::prelude::*;

verus! {

/// The number of integers from `range.0` up to, not including, `range.1`.
pub open spec fn span(range: (i32, i32)) -> nat {
    if range.0 < range.1 {
        (range.1 - range.0) as nat
    } else {
        0
    }
}

/// The samples of a grid in the order of the walk: row by row from the
/// first, and in each row column by column from the first. A sample is
/// its column and its row.
pub open spec fn grid_cells(columns: (i32, i32), rows: (i32, i32)) -> Seq<(i32, i32)> {
    Seq::new(
        span(columns) * span(rows),
        |i: int| ((columns.0 + i % (span(columns) as int)) as i32, (rows.0 + i / (span(
            columns,
        ) as int)) as i32),
    )
}

/// The candidates among the outcomes of the samples, in their order.
pub open spec fn hits(outcomes: Seq<Option<RenderResult>>) -> Seq<RenderResult>
    decreases outcomes.len(),
{
    if outcomes.len() == 0 {
        Seq::empty()
    } else {
        match outcomes.last() {
            Some(candidate) => hits(outcomes.drop_last()).push(candidate),
            None => hits(outcomes.drop_last()),
        }
    }
}

/// There are no more candidates than outcomes.
pub proof fn hits_are_few(outcomes: Seq<Option<RenderResult>>)
    ensures
        hits(outcomes).len() <= outcomes.len(),
    decreases outcomes.len(),
{
    if outcomes.len() > 0 {
        hits_are_few(outcomes.drop_last());
    }
}

/// Whether `outcomes` are what `sample` gave for the samples of the grid,
/// one for each in the order of the walk.
pub open spec fn sampled<F: Fn(i32, i32) -> Option<RenderResult>>(
    columns: (i32, i32),
    rows: (i32, i32),
    sample: F,
    outcomes: Seq<Option<RenderResult>>,
) -> bool {
    &&& outcomes.len() == grid_cells(columns, rows).len()
    &&& forall|i: int|
        0 <= i < outcomes.len() ==> sample.ensures(
            grid_cells(columns, rows)[i],
            #[trigger] outcomes[i],
        )
}

proof fn cell_at(columns: (i32, i32), rows: (i32, i32), x: i32, y: i32)
    requires
        columns.0 <= x < columns.1,
        rows.0 <= y < rows.1,
    ensures
        0 <= (y - rows.0) * span(columns) + (x - columns.0) < grid_cells(columns, rows).len(),
        grid_cells(columns, rows)[(y - rows.0) * span(columns) + (x - columns.0)] == (x, y),
{
    let w = span(columns) as int;
    let h = span(rows) as int;
    let dx = x - columns.0;
    let dy = y - rows.0;
    let i = dy * w + dx;
    assert(0 <= i < w * h && i % w == dx && i / w == dy) by (nonlinear_arith)
        requires
            0 <= dx < w,
            0 <= dy < h,
            i == dy * w + dx,
    ;
}

impl Renderer {
    /// The candidates of one triangle. A triangle that the culling mode
    /// does not keep, or that is degenerate, has none. Of any other each
    /// sample of the grid is taken in the order of the walk, and `sample`
    /// gives its candidate, or none where the sample is not covered.
    pub fn render_triangle<F: Fn(i32, i32) -> Option<RenderResult>>(
        facing: bool,
        is_valid_triangle: bool,
        face_culling_mode: &EFaceCullingMode,
        columns: (i32, i32),
        rows: (i32, i32),
        sample: &F,
    ) -> (out: Vec<RenderResult>)
        requires
            forall|x: i32, y: i32| #[trigger] sample.requires((x, y)),
        ensures
            out.len() <= span(columns) * span(rows),
            !(face_culling_mode.keeps(facing) && is_valid_triangle) ==> out@ == Seq::<
                RenderResult,
            >::empty(),
            face_culling_mode.keeps(facing) && is_valid_triangle ==> exists|
                outcomes: Seq<Option<RenderResult>>,
            |
                sampled(columns, rows, *sample, outcomes) && out@ == hits(outcomes),
    {
        let mut out: Vec<RenderResult> = Vec::new();
        if !(Self::is_pass_face_culling(facing, face_culling_mode) && is_valid_triangle) {
            return out;
        }
        let ghost mut outcomes: Seq<Option<RenderResult>> = Seq::empty();
        let ghost cells = grid_cells(columns, rows);
        let ghost w = span(columns) as int;
        proof {
            assert(span(rows) == 0 ==> span(columns) * span(rows) == 0) by (nonlinear_arith);
        }
        let mut y: i32 = rows.0;
        while y < rows.1
            invariant
                outcomes.len() <= cells.len(),
                rows.0 <= y <= rows.1 || (rows.0 >= rows.1 && y == rows.0),
                forall|x: i32, y: i32| #[trigger] sample.requires((x, y)),
                cells == grid_cells(columns, rows),
                w == span(columns),
                y < rows.1 ==> outcomes.len() == (y - rows.0) * w,
                y >= rows.1 ==> outcomes.len() == cells.len(),
                forall|i: int|
                    0 <= i < outcomes.len() ==> sample.ensures(cells[i], #[trigger] outcomes[i]),
                out@ == hits(outcomes),
            decreases rows.1 - y,
        {
            let mut x: i32 = columns.0;
            while x < columns.1
                invariant
                    rows.0 <= y < rows.1,
                    columns.0 <= x <= columns.1 || (columns.0 >= columns.1 && x == columns.0),
                    forall|x: i32, y: i32| #[trigger] sample.requires((x, y)),
                    cells == grid_cells(columns, rows),
                    w == span(columns),
                    outcomes.len() <= cells.len(),
                    x < columns.1 ==> outcomes.len() == (y - rows.0) * w + (x - columns.0),
                    x >= columns.1 ==> outcomes.len() == (y - rows.0) * w + w,
                    forall|i: int|
                        0 <= i < outcomes.len() ==> sample.ensures(
                            cells[i],
                            #[trigger] outcomes[i],
                        ),
                    out@ == hits(outcomes),
                decreases columns.1 - x,
            {
                proof {
                    cell_at(columns, rows, x, y);
                }
                let outcome = sample(x, y);
                proof {
                    let before = outcomes;
                    outcomes = outcomes.push(outcome);
                    assert(outcomes.drop_last() =~= before);
                    assert(outcomes.last() == outcome);
                }
                match outcome {
                    Some(candidate) => {
                        out.push(candidate);
                    },
                    None => {},
                }
                x = x + 1;
            }
            proof {
                let h = span(rows) as int;
                let dy = y - rows.0;
                assert(dy * w + w == (dy + 1) * w && (dy + 1 == h ==> dy * w + w == w * h))
                    by (nonlinear_arith);
            }
            y = y + 1;
        }
        proof {
            assert(sampled(columns, rows, *sample, outcomes));
            hits_are_few(outcomes);
        }
        out
    }
}

} // verus!
