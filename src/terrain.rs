use vstd::prelude::*;

verus! {

/// Horizontal distance, in pixels, between two vertices of the mountain outline.
pub const COLUMN_STEP: usize = 25;

/// How many outline vertices a mountain `width` pixels wide has: one on every
/// column that is a multiple of `COLUMN_STEP`, from 0 up to but not including
/// `width`.
pub open spec fn column_count(width: int) -> int {
    (width + COLUMN_STEP - 1) / (COLUMN_STEP as int)
}

/// The columns of a noise row `width` samples long on which the mountain
/// outline has a vertex: 0, `COLUMN_STEP`, 2 * `COLUMN_STEP`, ..., each below
/// `width`, in increasing order. Each is a valid index into the row.
pub fn mountain_columns(width: usize) -> (r: Vec<usize>)
    ensures
        r@.len() == column_count(width as int),
        forall|i: int| 0 <= i < r@.len() ==> r@[i] == i * COLUMN_STEP,
        forall|i: int| 0 <= i < r@.len() ==> r@[i] < width,
{
    let mut r: Vec<usize> = Vec::new();
    let mut x: usize = 0;
    while x < width
        invariant
            x == r@.len() * COLUMN_STEP,
            x <= width,
            forall|i: int| 0 <= i < r@.len() ==> r@[i] == i * COLUMN_STEP,
            forall|i: int| 0 <= i < r@.len() ==> r@[i] < width,
        decreases width - x,
    {
        r.push(x);
        if width - x <= COLUMN_STEP {
            proof {
                let n = r@.len() as int;
                assert((width + 24) / 25 == n) by (nonlinear_arith)
                    requires
                        (n - 1) * 25 < width,
                        width <= n * 25,
                ;
            }
            return r;
        }
        x = x + COLUMN_STEP;
    }
    proof {
        let n = r@.len() as int;
        assert((width + 24) / 25 == n) by (nonlinear_arith)
            requires
                width == n * 25,
        ;
    }
    r
}

} // verus!
