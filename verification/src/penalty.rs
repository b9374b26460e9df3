use vstd::prelude::*;

use crate::matrix::QrMatrix;

verus! {

/// The modules of a matrix as a function of coordinates.
pub open spec fn grid_of(m: QrMatrix) -> spec_fn(int, int) -> bool {
    |x: int, y: int| m.spec_get(x, y)
}

/// Row y of a grid as a sequence.
pub open spec fn row_seq(g: spec_fn(int, int) -> bool, size: int, y: int) -> Seq<bool> {
    Seq::new(size as nat, |x: int| g(x, y))
}

/// Column x of a grid as a sequence.
pub open spec fn col_seq(g: spec_fn(int, int) -> bool, size: int, x: int) -> Seq<bool> {
    Seq::new(size as nat, |y: int| g(x, y))
}

/// The penalty one scan step adds when the current run reaches length n: 3
/// at exactly 5, 1 for every module beyond 5.
pub open spec fn run_pen(n: int) -> int {
    if n == 5 {
        3
    } else if n > 5 {
        1
    } else {
        0
    }
}

/// The rule-1 penalty of a line from position i on, with `run` the length of
/// the current run of equal modules ending at position i-1.
pub open spec fn rule1_from(line: Seq<bool>, i: int, run: int) -> int
    decreases line.len() - i,
{
    if i < 1 || i >= line.len() {
        0
    } else {
        let nrun = if line[i] == line[i - 1] {
            run + 1
        } else {
            1
        };
        run_pen(nrun) + rule1_from(line, i + 1, nrun)
    }
}

/// The rule-1 penalty of one line: 3 for each run reaching 5 equal modules,
/// plus 1 for each module beyond the 5th.
pub open spec fn rule1_line(line: Seq<bool>) -> int {
    rule1_from(line, 1, 1)
}

/// The rule-1 penalty of all rows from y down.
pub open spec fn rule1_rows_from(g: spec_fn(int, int) -> bool, size: int, y: int) -> int
    decreases size - y,
{
    if y < 0 || y >= size {
        0
    } else {
        rule1_line(row_seq(g, size, y)) + rule1_rows_from(g, size, y + 1)
    }
}

/// The rule-1 penalty of all columns from x down.
pub open spec fn rule1_cols_from(g: spec_fn(int, int) -> bool, size: int, x: int) -> int
    decreases size - x,
{
    if x < 0 || x >= size {
        0
    } else {
        rule1_line(col_seq(g, size, x)) + rule1_cols_from(g, size, x + 1)
    }
}

/// 3 when the 2-by-2 block with top-left corner (x, y) is one colour.
pub open spec fn rule2_cell(g: spec_fn(int, int) -> bool, x: int, y: int) -> int {
    if g(x, y) == g(x + 1, y) && g(x + 1, y) == g(x, y + 1) && g(x, y + 1) == g(x + 1, y + 1) {
        3
    } else {
        0
    }
}

/// The rule-2 penalty of row y from block column x on.
pub open spec fn rule2_row_from(g: spec_fn(int, int) -> bool, size: int, y: int, x: int) -> int
    decreases size - 1 - x,
{
    if x < 0 || x >= size - 1 {
        0
    } else {
        rule2_cell(g, x, y) + rule2_row_from(g, size, y, x + 1)
    }
}

/// The rule-2 penalty of all block rows from y down.
pub open spec fn rule2_from(g: spec_fn(int, int) -> bool, size: int, y: int) -> int
    decreases size - 1 - y,
{
    if y < 0 || y >= size - 1 {
        0
    } else {
        rule2_row_from(g, size, y, 0) + rule2_from(g, size, y + 1)
    }
}

/// The dark-light-dark-dark-dark-light-dark window at position x of a line.
pub open spec fn finder_window(line: Seq<bool>, x: int) -> bool {
    line[x] && !line[x + 1] && line[x + 2] && line[x + 3] && line[x + 4] && !line[x + 5] && line[x
        + 6]
}

/// Four light modules directly before the window.
pub open spec fn light4_before(line: Seq<bool>, x: int) -> bool {
    x >= 4 && !line[x - 1] && !line[x - 2] && !line[x - 3] && !line[x - 4]
}

/// Four light modules directly after the window, bounded by the line's end.
pub open spec fn light4_after(line: Seq<bool>, x: int) -> bool {
    x + 7 <= line.len() - 4 && !line[x + 7] && !line[x + 8] && !line[x + 9] && !line[x + 10]
}

/// 40 when a finder-like window with a light flank sits at position x.
pub open spec fn rule3_cell(line: Seq<bool>, x: int) -> int {
    if finder_window(line, x) && (light4_before(line, x) || light4_after(line, x)) {
        40
    } else {
        0
    }
}

/// The rule-3 penalty of one line from position x on.
pub open spec fn rule3_line_from(line: Seq<bool>, x: int) -> int
    decreases line.len() - 6 - x,
{
    if x < 0 || x >= line.len() - 6 {
        0
    } else {
        rule3_cell(line, x) + rule3_line_from(line, x + 1)
    }
}

/// The rule-3 penalty of all rows from y down.
pub open spec fn rule3_rows_from(g: spec_fn(int, int) -> bool, size: int, y: int) -> int
    decreases size - y,
{
    if y < 0 || y >= size {
        0
    } else {
        rule3_line_from(row_seq(g, size, y), 0) + rule3_rows_from(g, size, y + 1)
    }
}

/// The rule-3 penalty of all columns from x down.
pub open spec fn rule3_cols_from(g: spec_fn(int, int) -> bool, size: int, x: int) -> int
    decreases size - x,
{
    if x < 0 || x >= size {
        0
    } else {
        rule3_line_from(col_seq(g, size, x), 0) + rule3_cols_from(g, size, x + 1)
    }
}

/// The number of dark modules in row y from position x on.
pub open spec fn dark_row_from(g: spec_fn(int, int) -> bool, size: int, y: int, x: int) -> int
    decreases size - x,
{
    if x < 0 || x >= size {
        0
    } else {
        (if g(x, y) {
            1int
        } else {
            0int
        }) + dark_row_from(g, size, y, x + 1)
    }
}

/// The number of dark modules from row y down.
pub open spec fn dark_from(g: spec_fn(int, int) -> bool, size: int, y: int) -> int
    decreases size - y,
{
    if y < 0 || y >= size {
        0
    } else {
        dark_row_from(g, size, y, 0) + dark_from(g, size, y + 1)
    }
}

/// The rule-4 penalty: the dark-module percentage rounded down to a multiple
/// of 5, scored by its distance from the balanced 45..50 band.
pub open spec fn spec_rule4(g: spec_fn(int, int) -> bool, size: int) -> int {
    let pct = dark_from(g, size, 0) * 100 / (size * size);
    let prev = pct / 5 * 5;
    let d50 = if prev >= 50 {
        prev - 50
    } else {
        50 - prev
    };
    let d45 = if prev >= 45 {
        prev - 45
    } else {
        45 - prev
    };
    10 * (if d50 < d45 {
        d50
    } else {
        d45
    })
}

/// The total penalty of a grid: the four rules summed.
pub open spec fn spec_penalty(g: spec_fn(int, int) -> bool, size: int) -> int {
    rule1_rows_from(g, size, 0) + rule1_cols_from(g, size, 0) + rule2_from(g, size, 0)
        + rule3_rows_from(g, size, 0) + rule3_cols_from(g, size, 0) + spec_rule4(g, size)
}

pub proof fn lemma_rule1_from_bound(line: Seq<bool>, i: int, run: int)
    ensures
        0 <= rule1_from(line, i, run) <= (if i < line.len() {
            3 * (line.len() - i)
        } else {
            0
        }),
    decreases line.len() - i,
{
    if 1 <= i < line.len() {
        let nrun = if line[i] == line[i - 1] {
            run + 1
        } else {
            1
        };
        lemma_rule1_from_bound(line, i + 1, nrun);
    }
}

pub proof fn lemma_rule1_rows_bound(g: spec_fn(int, int) -> bool, size: int, y: int)
    requires
        size <= 177,
    ensures
        0 <= rule1_rows_from(g, size, y) <= (if 0 <= y < size {
            531 * (size - y)
        } else {
            0
        }),
    decreases size - y,
{
    if 0 <= y < size {
        lemma_rule1_from_bound(row_seq(g, size, y), 1, 1);
        lemma_rule1_rows_bound(g, size, y + 1);
    }
}

pub proof fn lemma_rule1_cols_bound(g: spec_fn(int, int) -> bool, size: int, x: int)
    requires
        size <= 177,
    ensures
        0 <= rule1_cols_from(g, size, x) <= (if 0 <= x < size {
            531 * (size - x)
        } else {
            0
        }),
    decreases size - x,
{
    if 0 <= x < size {
        lemma_rule1_from_bound(col_seq(g, size, x), 1, 1);
        lemma_rule1_cols_bound(g, size, x + 1);
    }
}

pub proof fn lemma_rule2_row_bound(g: spec_fn(int, int) -> bool, size: int, y: int, x: int)
    ensures
        0 <= rule2_row_from(g, size, y, x) <= (if 0 <= x < size - 1 {
            3 * (size - 1 - x)
        } else {
            0
        }),
    decreases size - 1 - x,
{
    if 0 <= x < size - 1 {
        lemma_rule2_row_bound(g, size, y, x + 1);
    }
}

pub proof fn lemma_rule2_bound(g: spec_fn(int, int) -> bool, size: int, y: int)
    requires
        size <= 177,
    ensures
        0 <= rule2_from(g, size, y) <= (if 0 <= y < size - 1 {
            531 * (size - 1 - y)
        } else {
            0
        }),
    decreases size - 1 - y,
{
    if 0 <= y < size - 1 {
        lemma_rule2_row_bound(g, size, y, 0);
        lemma_rule2_bound(g, size, y + 1);
    }
}

pub proof fn lemma_rule3_line_bound(line: Seq<bool>, x: int)
    ensures
        0 <= rule3_line_from(line, x) <= (if x < line.len() - 6 {
            40 * (line.len() - 6 - x)
        } else {
            0
        }),
    decreases line.len() - 6 - x,
{
    if 0 <= x < line.len() - 6 {
        lemma_rule3_line_bound(line, x + 1);
    }
}

pub proof fn lemma_rule3_rows_bound(g: spec_fn(int, int) -> bool, size: int, y: int)
    requires
        size <= 177,
    ensures
        0 <= rule3_rows_from(g, size, y) <= (if 0 <= y < size {
            6840 * (size - y)
        } else {
            0
        }),
    decreases size - y,
{
    if 0 <= y < size {
        lemma_rule3_line_bound(row_seq(g, size, y), 0);
        lemma_rule3_rows_bound(g, size, y + 1);
    }
}

pub proof fn lemma_rule3_cols_bound(g: spec_fn(int, int) -> bool, size: int, x: int)
    requires
        size <= 177,
    ensures
        0 <= rule3_cols_from(g, size, x) <= (if 0 <= x < size {
            6840 * (size - x)
        } else {
            0
        }),
    decreases size - x,
{
    if 0 <= x < size {
        lemma_rule3_line_bound(col_seq(g, size, x), 0);
        lemma_rule3_cols_bound(g, size, x + 1);
    }
}

pub proof fn lemma_dark_row_bound(g: spec_fn(int, int) -> bool, size: int, y: int, x: int)
    ensures
        0 <= dark_row_from(g, size, y, x) <= (if 0 <= x < size {
            size - x
        } else {
            0
        }),
    decreases size - x,
{
    if 0 <= x < size {
        lemma_dark_row_bound(g, size, y, x + 1);
    }
}

pub proof fn lemma_dark_bound(g: spec_fn(int, int) -> bool, size: int, y: int)
    requires
        size <= 177,
    ensures
        0 <= dark_from(g, size, y) <= (if 0 <= y < size {
            177 * (size - y)
        } else {
            0
        }),
    decreases size - y,
{
    if 0 <= y < size {
        lemma_dark_row_bound(g, size, y, 0);
        lemma_dark_bound(g, size, y + 1);
    }
}

/// The grid of a matrix after masking with the given mask id.
pub open spec fn masked_grid(m: QrMatrix, functions: QrMatrix, mask: int) -> spec_fn(
    int,
    int,
) -> bool {
    |x: int, y: int|
        crate::matrix::spec_masked_cell(
            m.spec_get(x, y),
            functions.spec_get(x, y),
            mask,
            x,
            y,
        )
}

/// The penalty the matrix would score after masking with the given mask id.
pub open spec fn masked_penalty(m: QrMatrix, functions: QrMatrix, mask: int) -> int {
    spec_penalty(masked_grid(m, functions, mask), m.spec_size())
}

/// Two grids that agree on every module of the symbol score the same
/// penalty.
pub proof fn lemma_penalty_congruence(
    g1: spec_fn(int, int) -> bool,
    g2: spec_fn(int, int) -> bool,
    size: int,
)
    requires
        forall|x: int, y: int| 0 <= x < size && 0 <= y < size ==> #[trigger] g1(x, y) == g2(x, y),
    ensures
        spec_penalty(g1, size) == spec_penalty(g2, size),
{
    lemma_rule1_rows_cong(g1, g2, size, 0);
    lemma_rule1_cols_cong(g1, g2, size, 0);
    lemma_rule2_cong(g1, g2, size, 0);
    lemma_rule3_rows_cong(g1, g2, size, 0);
    lemma_rule3_cols_cong(g1, g2, size, 0);
    lemma_dark_cong(g1, g2, size, 0);
}

proof fn lemma_rule1_rows_cong(
    g1: spec_fn(int, int) -> bool,
    g2: spec_fn(int, int) -> bool,
    size: int,
    y: int,
)
    requires
        forall|x: int, yy: int|
            0 <= x < size && 0 <= yy < size ==> #[trigger] g1(x, yy) == g2(x, yy),
    ensures
        rule1_rows_from(g1, size, y) == rule1_rows_from(g2, size, y),
    decreases size - y,
{
    if 0 <= y < size {
        assert(row_seq(g1, size, y) =~= row_seq(g2, size, y));
        lemma_rule1_rows_cong(g1, g2, size, y + 1);
    }
}

proof fn lemma_rule1_cols_cong(
    g1: spec_fn(int, int) -> bool,
    g2: spec_fn(int, int) -> bool,
    size: int,
    x: int,
)
    requires
        forall|xx: int, yy: int|
            0 <= xx < size && 0 <= yy < size ==> #[trigger] g1(xx, yy) == g2(xx, yy),
    ensures
        rule1_cols_from(g1, size, x) == rule1_cols_from(g2, size, x),
    decreases size - x,
{
    if 0 <= x < size {
        assert(col_seq(g1, size, x) =~= col_seq(g2, size, x));
        lemma_rule1_cols_cong(g1, g2, size, x + 1);
    }
}

proof fn lemma_rule2_row_cong(
    g1: spec_fn(int, int) -> bool,
    g2: spec_fn(int, int) -> bool,
    size: int,
    y: int,
    x: int,
)
    requires
        0 <= y < size - 1,
        forall|xx: int, yy: int|
            0 <= xx < size && 0 <= yy < size ==> #[trigger] g1(xx, yy) == g2(xx, yy),
    ensures
        rule2_row_from(g1, size, y, x) == rule2_row_from(g2, size, y, x),
    decreases size - 1 - x,
{
    if 0 <= x < size - 1 {
        lemma_rule2_row_cong(g1, g2, size, y, x + 1);
    }
}

proof fn lemma_rule2_cong(
    g1: spec_fn(int, int) -> bool,
    g2: spec_fn(int, int) -> bool,
    size: int,
    y: int,
)
    requires
        forall|xx: int, yy: int|
            0 <= xx < size && 0 <= yy < size ==> #[trigger] g1(xx, yy) == g2(xx, yy),
    ensures
        rule2_from(g1, size, y) == rule2_from(g2, size, y),
    decreases size - 1 - y,
{
    if 0 <= y < size - 1 {
        lemma_rule2_row_cong(g1, g2, size, y, 0);
        lemma_rule2_cong(g1, g2, size, y + 1);
    }
}

proof fn lemma_rule3_rows_cong(
    g1: spec_fn(int, int) -> bool,
    g2: spec_fn(int, int) -> bool,
    size: int,
    y: int,
)
    requires
        forall|xx: int, yy: int|
            0 <= xx < size && 0 <= yy < size ==> #[trigger] g1(xx, yy) == g2(xx, yy),
    ensures
        rule3_rows_from(g1, size, y) == rule3_rows_from(g2, size, y),
    decreases size - y,
{
    if 0 <= y < size {
        assert(row_seq(g1, size, y) =~= row_seq(g2, size, y));
        lemma_rule3_rows_cong(g1, g2, size, y + 1);
    }
}

proof fn lemma_rule3_cols_cong(
    g1: spec_fn(int, int) -> bool,
    g2: spec_fn(int, int) -> bool,
    size: int,
    x: int,
)
    requires
        forall|xx: int, yy: int|
            0 <= xx < size && 0 <= yy < size ==> #[trigger] g1(xx, yy) == g2(xx, yy),
    ensures
        rule3_cols_from(g1, size, x) == rule3_cols_from(g2, size, x),
    decreases size - x,
{
    if 0 <= x < size {
        assert(col_seq(g1, size, x) =~= col_seq(g2, size, x));
        lemma_rule3_cols_cong(g1, g2, size, x + 1);
    }
}

proof fn lemma_dark_row_cong(
    g1: spec_fn(int, int) -> bool,
    g2: spec_fn(int, int) -> bool,
    size: int,
    y: int,
    x: int,
)
    requires
        0 <= y < size,
        forall|xx: int, yy: int|
            0 <= xx < size && 0 <= yy < size ==> #[trigger] g1(xx, yy) == g2(xx, yy),
    ensures
        dark_row_from(g1, size, y, x) == dark_row_from(g2, size, y, x),
    decreases size - x,
{
    if 0 <= x < size {
        lemma_dark_row_cong(g1, g2, size, y, x + 1);
    }
}

proof fn lemma_dark_cong(
    g1: spec_fn(int, int) -> bool,
    g2: spec_fn(int, int) -> bool,
    size: int,
    y: int,
)
    requires
        forall|xx: int, yy: int|
            0 <= xx < size && 0 <= yy < size ==> #[trigger] g1(xx, yy) == g2(xx, yy),
    ensures
        dark_from(g1, size, y) == dark_from(g2, size, y),
    decreases size - y,
{
    if 0 <= y < size {
        lemma_dark_row_cong(g1, g2, size, y, 0);
        lemma_dark_cong(g1, g2, size, y + 1);
    }
}

/// The rule-1 penalty of one line of the grid, scanned horizontally when
/// horiz is set, vertically otherwise.
#[verifier::loop_isolation(false)]
fn rule1_line_exec(m: &QrMatrix, idx: usize, horiz: bool) -> (r: usize)
    requires
        m.wf(),
        idx < m.spec_size(),
    ensures
        r == rule1_line(
            if horiz {
                row_seq(grid_of(*m), m.spec_size(), idx as int)
            } else {
                col_seq(grid_of(*m), m.spec_size(), idx as int)
            },
        ),
        r <= 531,
{
    let size = m.size();
    proof {
        crate::matrix::lemma_size_bound(m);
    }
    let ghost line = if horiz {
        row_seq(grid_of(*m), m.spec_size(), idx as int)
    } else {
        col_seq(grid_of(*m), m.spec_size(), idx as int)
    };
    let mut run: usize = 1;
    let mut prev = if horiz {
        m.get(0, idx)
    } else {
        m.get(idx, 0)
    };
    let mut rp: usize = 0;
    let mut x: usize = 1;
    proof {
        lemma_rule1_from_bound(line, 1, 1);
    }
    while x < size
        invariant
            1 <= x <= size,
            1 <= run <= x,
            prev == line[x - 1],
            rp + rule1_from(line, x as int, run as int) == rule1_line(line),
            rp <= 3 * (x - 1),
        decreases size - x,
    {
        let c = if horiz {
            m.get(x, idx)
        } else {
            m.get(idx, x)
        };
        let nrun = if c == prev {
            run + 1
        } else {
            1
        };
        if nrun == 5 {
            rp += 3;
        } else if nrun > 5 {
            rp += 1;
        }
        run = nrun;
        prev = c;
        x += 1;
    }
    rp
}

/// One module of a scan line: row idx read at q when horiz, column idx
/// otherwise.
fn line_cell(m: &QrMatrix, idx: usize, q: usize, horiz: bool) -> (r: bool)
    requires
        m.wf(),
        idx < m.spec_size(),
        q < m.spec_size(),
    ensures
        r == (if horiz {
            row_seq(grid_of(*m), m.spec_size(), idx as int)
        } else {
            col_seq(grid_of(*m), m.spec_size(), idx as int)
        })[q as int],
{
    if horiz {
        m.get(q, idx)
    } else {
        m.get(idx, q)
    }
}

/// The rule-3 penalty of one line of the grid.
#[verifier::loop_isolation(false)]
fn rule3_line_exec(m: &QrMatrix, idx: usize, horiz: bool) -> (r: usize)
    requires
        m.wf(),
        idx < m.spec_size(),
    ensures
        r == rule3_line_from(
            if horiz {
                row_seq(grid_of(*m), m.spec_size(), idx as int)
            } else {
                col_seq(grid_of(*m), m.spec_size(), idx as int)
            },
            0,
        ),
        r <= 6840,
{
    let size = m.size();
    proof {
        crate::matrix::lemma_size_bound(m);
    }
    let ghost line = if horiz {
        row_seq(grid_of(*m), m.spec_size(), idx as int)
    } else {
        col_seq(grid_of(*m), m.spec_size(), idx as int)
    };
    let mut rp: usize = 0;
    proof {
        lemma_rule3_line_bound(line, 0);
    }
    if size < 7 {
        return 0;
    }
    let mut x: usize = 0;
    while x < size - 6
        invariant
            x <= size - 6,
            7 <= size,
            rp + rule3_line_from(line, x as int) == rule3_line_from(line, 0),
            rp <= 40 * x,
        decreases size - 6 - x,
    {
        let a = line_cell(m, idx, x, horiz);
        let b = line_cell(m, idx, x + 1, horiz);
        let c = line_cell(m, idx, x + 2, horiz);
        let d = line_cell(m, idx, x + 3, horiz);
        let e = line_cell(m, idx, x + 4, horiz);
        let f = line_cell(m, idx, x + 5, horiz);
        let g = line_cell(m, idx, x + 6, horiz);
        if a && !b && c && d && e && !f && g {
            let before = x >= 4 && !line_cell(m, idx, x - 1, horiz) && !line_cell(
                m,
                idx,
                x - 2,
                horiz,
            ) && !line_cell(m, idx, x - 3, horiz) && !line_cell(m, idx, x - 4, horiz);
            let after = x + 7 <= size - 4 && !line_cell(m, idx, x + 7, horiz) && !line_cell(
                m,
                idx,
                x + 8,
                horiz,
            ) && !line_cell(m, idx, x + 9, horiz) && !line_cell(m, idx, x + 10, horiz);
            if before || after {
                rp += 40;
            }
            proof {
                assert(before == light4_before(line, x as int));
                assert(after == light4_after(line, x as int));
            }
        }
        x += 1;
    }
    rp
}

/// The rule-1 penalty of the whole matrix: all rows and all columns scored
/// for runs of 5 or more equal modules.
#[verifier::loop_isolation(false)]
pub fn rule1_penalty(mat: &QrMatrix) -> (r: usize)
    requires
        mat.wf(),
    ensures
        r == rule1_total(grid_of(*mat), mat.spec_size()),
        r <= 187974,
{
    let size = mat.size();
    proof {
        crate::matrix::lemma_size_bound(mat);
    }
    let ghost g = grid_of(*mat);
    let ghost sz = mat.spec_size();

    let mut r1r: usize = 0;
    let mut y: usize = 0;
    proof {
        lemma_rule1_rows_bound(g, sz, 0);
    }
    while y < size
        invariant
            y <= size,
            r1r + rule1_rows_from(g, sz, y as int) == rule1_rows_from(g, sz, 0),
            r1r <= 531 * y,
        decreases size - y,
    {
        let line_pen = rule1_line_exec(mat, y, true);
        r1r += line_pen;
        y += 1;
    }

    let mut r1c: usize = 0;
    let mut x: usize = 0;
    proof {
        lemma_rule1_cols_bound(g, sz, 0);
    }
    while x < size
        invariant
            x <= size,
            r1c + rule1_cols_from(g, sz, x as int) == rule1_cols_from(g, sz, 0),
            r1c <= 531 * x,
        decreases size - x,
    {
        let line_pen = rule1_line_exec(mat, x, false);
        r1c += line_pen;
        x += 1;
    }
    r1r + r1c
}

/// The rule-3 penalty of the whole matrix: every row and column scored for
/// finder-like windows flanked by four light modules, up to the line edges.
#[verifier::loop_isolation(false)]
pub fn rule3_penalty(mat: &QrMatrix) -> (r: usize)
    requires
        mat.wf(),
    ensures
        r == rule3_rows_from(grid_of(*mat), mat.spec_size(), 0) + rule3_cols_from(
            grid_of(*mat),
            mat.spec_size(),
            0,
        ),
        r <= 2421360,
{
    let size = mat.size();
    proof {
        crate::matrix::lemma_size_bound(mat);
    }
    let ghost g = grid_of(*mat);
    let ghost sz = mat.spec_size();

    let mut r3r: usize = 0;
    let mut y: usize = 0;
    proof {
        lemma_rule3_rows_bound(g, sz, 0);
    }
    while y < size
        invariant
            y <= size,
            r3r + rule3_rows_from(g, sz, y as int) == rule3_rows_from(g, sz, 0),
            r3r <= 6840 * y,
        decreases size - y,
    {
        let line_pen = rule3_line_exec(mat, y, true);
        r3r += line_pen;
        y += 1;
    }

    let mut r3c: usize = 0;
    let mut x: usize = 0;
    proof {
        lemma_rule3_cols_bound(g, sz, 0);
    }
    while x < size
        invariant
            x <= size,
            r3c + rule3_cols_from(g, sz, x as int) == rule3_cols_from(g, sz, 0),
            r3c <= 6840 * x,
        decreases size - x,
    {
        let line_pen = rule3_line_exec(mat, x, false);
        r3c += line_pen;
        x += 1;
    }
    r3r + r3c
}

/// The total penalty of the matrix under the four scoring rules.
#[verifier::loop_isolation(false)]
#[verifier::rlimit(100)]
pub fn calculate_penalty(mat: &QrMatrix) -> (r: usize)
    requires
        mat.wf(),
    ensures
        r == spec_penalty(grid_of(*mat), mat.spec_size()),
        r <= 40000000,
{
    let size = mat.size();
    proof {
        crate::matrix::lemma_size_bound(mat);
    }
    let ghost g = grid_of(*mat);
    let ghost sz = mat.spec_size();

    let r1 = rule1_penalty(mat);

    let mut r2: usize = 0;
    let mut y: usize = 0;
    proof {
        lemma_rule2_bound(g, sz, 0);
    }
    while y + 1 < size
        invariant
            y <= size,
            r2 + rule2_from(g, sz, y as int) == rule2_from(g, sz, 0),
            r2 <= 531 * y,
        decreases size - y,
    {
        let mut row2: usize = 0;
        let mut x: usize = 0;
        while x + 1 < size
            invariant
                x <= size,
                y + 1 < size,
                row2 + rule2_row_from(g, sz, y as int, x as int) == rule2_row_from(
                    g,
                    sz,
                    y as int,
                    0,
                ),
                row2 <= 3 * x,
            decreases size - x,
        {
            let tl = mat.get(x, y);
            let tr = mat.get(x + 1, y);
            let bl = mat.get(x, y + 1);
            let br = mat.get(x + 1, y + 1);
            if tl == tr && tr == bl && bl == br {
                row2 += 3;
            }
            x += 1;
        }
        proof {
            lemma_rule2_row_bound(g, sz, y as int, 0);
        }
        r2 += row2;
        y += 1;
    }

    let mut r3r: usize = 0;
    let mut y: usize = 0;
    proof {
        lemma_rule3_rows_bound(g, sz, 0);
    }
    while y < size
        invariant
            y <= size,
            r3r + rule3_rows_from(g, sz, y as int) == rule3_rows_from(g, sz, 0),
            r3r <= 6840 * y,
        decreases size - y,
    {
        let line_pen = rule3_line_exec(mat, y, true);
        r3r += line_pen;
        y += 1;
    }

    let mut r3c: usize = 0;
    let mut x: usize = 0;
    proof {
        lemma_rule3_cols_bound(g, sz, 0);
    }
    while x < size
        invariant
            x <= size,
            r3c + rule3_cols_from(g, sz, x as int) == rule3_cols_from(g, sz, 0),
            r3c <= 6840 * x,
        decreases size - x,
    {
        let line_pen = rule3_line_exec(mat, x, false);
        r3c += line_pen;
        x += 1;
    }

    let mut dark: usize = 0;
    let mut y: usize = 0;
    proof {
        lemma_dark_bound(g, sz, 0);
    }
    while y < size
        invariant
            y <= size,
            dark + dark_from(g, sz, y as int) == dark_from(g, sz, 0),
            dark <= 177 * y,
        decreases size - y,
    {
        let mut row_dark: usize = 0;
        let mut x: usize = 0;
        while x < size
            invariant
                x <= size,
                y < size,
                row_dark + dark_row_from(g, sz, y as int, x as int) == dark_row_from(
                    g,
                    sz,
                    y as int,
                    0,
                ),
                row_dark <= x,
            decreases size - x,
        {
            if mat.get(x, y) {
                row_dark += 1;
            }
            x += 1;
        }
        proof {
            lemma_dark_row_bound(g, sz, y as int, 0);
        }
        dark += row_dark;
        y += 1;
    }

    proof {
        assert(size * size <= 31329 && size * size >= 1) by (nonlinear_arith)
            requires
                1 <= size <= 177,
        ;
    }
    let pct = dark * 100 / (size * size);
    let prev = pct / 5 * 5;
    let d50 = if prev >= 50 {
        prev - 50
    } else {
        50 - prev
    };
    let d45 = if prev >= 45 {
        prev - 45
    } else {
        45 - prev
    };
    let r4 = 10 * (if d50 < d45 {
        d50
    } else {
        d45
    });
    proof {
        assert(r4 == spec_rule4(g, sz));
    }

    r1 + r2 + r3r + r3c + r4
}

/// A run of k equal modules starting at position i of a line.
pub open spec fn has_run(line: Seq<bool>, i: int, k: int) -> bool {
    0 <= i && i + k <= line.len() && forall|j: int| i <= j < i + k ==> line[j] == line[i]
}

/// No run of 5 equal modules anywhere in the line.
pub open spec fn no_run5(line: Seq<bool>) -> bool {
    forall|i: int| !has_run(line, i, 5)
}

/// The combined rule-1 penalty of all rows and all columns.
pub open spec fn rule1_total(g: spec_fn(int, int) -> bool, size: int) -> int {
    rule1_rows_from(g, size, 0) + rule1_cols_from(g, size, 0)
}

proof fn lemma_rule1_no_run_from(line: Seq<bool>, t: int, run: int)
    requires
        no_run5(line),
        1 <= t,
        1 <= run <= t,
        t <= line.len() + 1,
        forall|j: int| t - run <= j < t ==> #[trigger] line[j] == line[t - 1],
    ensures
        rule1_from(line, t, run) == 0,
    decreases line.len() + 1 - t,
{
    if t < line.len() {
        if line[t] == line[t - 1] {
            let nrun = run + 1;
            assert(forall|j: int| t + 1 - nrun <= j < t + 1 ==> #[trigger] line[j] == line[t]);
            if nrun >= 5 {
                assert(forall|j: int| t - 4 <= j < t + 1 ==> #[trigger] line[j] == line[t - 4]);
                assert(has_run(line, t - 4, 5));
                assert(false);
            }
            lemma_rule1_no_run_from(line, t + 1, nrun);
        } else {
            assert(forall|j: int| t + 1 - 1 <= j < t + 1 ==> #[trigger] line[j] == line[t]);
            lemma_rule1_no_run_from(line, t + 1, 1);
        }
    }
}

/// A line with no run of 5 equal modules scores no rule-1 penalty.
pub proof fn lemma_rule1_no_run(line: Seq<bool>)
    requires
        no_run5(line),
    ensures
        rule1_line(line) == 0,
{
    if line.len() >= 1 {
        lemma_rule1_no_run_from(line, 1, 1);
    }
}

/// The run length the scan carries entering position t.
pub open spec fn scan_run(line: Seq<bool>, t: int) -> int
    decreases t,
{
    if t <= 1 {
        1
    } else if line[t - 1] == line[t - 2] {
        scan_run(line, t - 1) + 1
    } else {
        1
    }
}

proof fn lemma_scan_run_pos(line: Seq<bool>, t: int)
    ensures
        scan_run(line, t) >= 1,
    decreases t,
{
    if t > 1 && line[t - 1] == line[t - 2] {
        lemma_scan_run_pos(line, t - 1);
    }
}

proof fn lemma_scan_chain(line: Seq<bool>, t: int)
    requires
        1 <= t <= line.len(),
    ensures
        rule1_line(line) >= rule1_from(line, t, scan_run(line, t)),
    decreases t,
{
    if t == 1 {
    } else {
        lemma_scan_chain(line, t - 1);
        lemma_rule1_from_bound(line, t, scan_run(line, t));
        assert(rule1_from(line, t - 1, scan_run(line, t - 1)) == run_pen(scan_run(line, t))
            + rule1_from(line, t, scan_run(line, t)));
    }
}

/// A line holding a run of 6 equal modules scores rule-1 penalty of at
/// least 4: 3 when the run reaches 5 modules and 1 more for the sixth.
pub proof fn lemma_rule1_six(line: Seq<bool>, i0: int)
    requires
        0 <= i0,
        i0 + 6 <= line.len(),
        forall|j: int| i0 <= j < i0 + 6 ==> #[trigger] line[j] == line[i0],
    ensures
        rule1_line(line) >= 4,
{
    lemma_scan_chain(line, i0 + 1);
    lemma_scan_run_pos(line, i0 + 1);
    let r = scan_run(line, i0 + 1);
    assert(line[i0 + 1] == line[i0]);
    assert(line[i0 + 2] == line[i0 + 1]);
    assert(line[i0 + 3] == line[i0 + 2]);
    assert(line[i0 + 4] == line[i0 + 3]);
    assert(line[i0 + 5] == line[i0 + 4]);
    assert(rule1_from(line, i0 + 1, r) == run_pen(r + 1) + rule1_from(line, i0 + 2, r + 1));
    assert(rule1_from(line, i0 + 2, r + 1) == run_pen(r + 2) + rule1_from(line, i0 + 3, r + 2));
    assert(rule1_from(line, i0 + 3, r + 2) == run_pen(r + 3) + rule1_from(line, i0 + 4, r + 3));
    assert(rule1_from(line, i0 + 4, r + 3) == run_pen(r + 4) + rule1_from(line, i0 + 5, r + 4));
    assert(rule1_from(line, i0 + 5, r + 4) == run_pen(r + 5) + rule1_from(line, i0 + 6, r + 5));
    lemma_rule1_from_bound(line, i0 + 6, r + 5);
    if r + 1 > 5 {
        assert(run_pen(r + 1) + run_pen(r + 2) + run_pen(r + 3) + run_pen(r + 4) + run_pen(r + 5)
            == 5);
    } else {
        assert(2 <= r + 1 <= 5);
        assert(run_pen(r + 1) + run_pen(r + 2) + run_pen(r + 3) + run_pen(r + 4) + run_pen(r + 5)
            == 3 + (r + 5 - 5));
    }
}

proof fn lemma_rows_suffix_ge(g: spec_fn(int, int) -> bool, size: int, y: int, y0: int)
    requires
        size <= 177,
        0 <= y <= y0 < size,
    ensures
        rule1_rows_from(g, size, y) >= rule1_line(row_seq(g, size, y0)),
    decreases y0 - y,
{
    lemma_rule1_from_bound(row_seq(g, size, y), 1, 1);
    if y == y0 {
        lemma_rule1_rows_bound(g, size, y + 1);
    } else {
        lemma_rows_suffix_ge(g, size, y + 1, y0);
    }
}

proof fn lemma_rows_zero(g: spec_fn(int, int) -> bool, size: int, y: int)
    requires
        forall|yy: int| 0 <= yy < size ==> no_run5(#[trigger] row_seq(g, size, yy)),
    ensures
        rule1_rows_from(g, size, y) == 0,
    decreases size - y,
{
    if 0 <= y < size {
        lemma_rule1_no_run(row_seq(g, size, y));
        lemma_rows_zero(g, size, y + 1);
    }
}

proof fn lemma_cols_zero(g: spec_fn(int, int) -> bool, size: int, x: int)
    requires
        forall|xx: int| 0 <= xx < size ==> no_run5(#[trigger] col_seq(g, size, xx)),
    ensures
        rule1_cols_from(g, size, x) == 0,
    decreases size - x,
{
    if 0 <= x < size {
        lemma_rule1_no_run(col_seq(g, size, x));
        lemma_cols_zero(g, size, x + 1);
    }
}

/// Rule-1 monotonicity: a symbol with a run of 6 equal modules in some row
/// scores a strictly higher rule-1 penalty than any symbol with no run of 5
/// equal modules in any row or column, whose rule-1 penalty is 0.
pub proof fn lemma_rule1_monotone(
    ga: spec_fn(int, int) -> bool,
    sa: int,
    y0: int,
    i0: int,
    gb: spec_fn(int, int) -> bool,
    sb: int,
)
    requires
        0 <= sa <= 177,
        0 <= sb <= 177,
        0 <= y0 < sa,
        0 <= i0,
        i0 + 6 <= sa,
        forall|j: int|
            i0 <= j < i0 + 6 ==> #[trigger] row_seq(ga, sa, y0)[j] == row_seq(ga, sa, y0)[i0],
        forall|y: int| 0 <= y < sb ==> no_run5(#[trigger] row_seq(gb, sb, y)),
        forall|x: int| 0 <= x < sb ==> no_run5(#[trigger] col_seq(gb, sb, x)),
    ensures
        rule1_total(gb, sb) == 0,
        rule1_total(ga, sa) >= 4,
        rule1_total(ga, sa) > rule1_total(gb, sb),
{
    lemma_rule1_six(row_seq(ga, sa, y0), i0);
    lemma_rows_suffix_ge(ga, sa, 0, y0);
    lemma_rule1_cols_bound(ga, sa, 0);
    lemma_rows_zero(gb, sb, 0);
    lemma_cols_zero(gb, sb, 0);
}

} // verus!
