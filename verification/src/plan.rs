use vstd::prelude::*;

verus! {

/// One cell of the square interpolation system matrix: which quantity the
/// numeric layer puts there. `n` centers occupy the leading rows and
/// columns; the trailing rows and columns, when present, carry the
/// polynomial augmentation.
#[derive(Clone, Copy, Debug, PartialEq, Eq)]
pub enum SystemEntry {
    /// The basis function evaluated at the Euclidean distance between
    /// center `i` and center `j`.
    BasisDistance { i: usize, j: usize },
    /// The constant `1`, coupling a sample with the constant polynomial
    /// term.
    One,
    /// Coordinate component `axis` of center `center`, coupling the sample
    /// with one linear polynomial term.
    CenterCoord { center: usize, axis: usize },
    /// A polynomial-against-polynomial cell, identically zero.
    Zero,
}

/// One cell of the augmented right-hand-side matrix: the training values,
/// zero-padded over the polynomial rows.
#[derive(Clone, Copy, Debug, PartialEq, Eq)]
pub enum RhsEntry {
    /// Component `component` of training value `sample`.
    Value { sample: usize, component: usize },
    /// Zero padding of a polynomial augmentation row.
    Zero,
}

/// One cell of the basis vector built when an interpolant is evaluated at
/// a query coordinate.
#[derive(Clone, Copy, Debug, PartialEq, Eq)]
pub enum EvalEntry {
    /// The basis function at the Euclidean distance between the query and
    /// center `center`.
    BasisDistance { center: usize },
    /// The constant `1` of the constant polynomial term.
    One,
    /// Component `axis` of the query coordinate, for one linear term.
    QueryCoord { axis: usize },
}

/// The cell of the system matrix at row `r`, column `c`, for `n` centers:
/// a basis distance inside the leading `n x n` block, the constant `1` on
/// the border row and column at index `n`, a center coordinate on the
/// linear border rows and columns past `n`, and zero in the trailing
/// polynomial block.
pub open spec fn spec_system_entry(n: usize, r: usize, c: usize) -> SystemEntry {
    if r < n && c < n {
        SystemEntry::BasisDistance { i: r, j: c }
    } else if r < n {
        if c == n {
            SystemEntry::One
        } else {
            SystemEntry::CenterCoord { center: r, axis: (c - n - 1) as usize }
        }
    } else if c < n {
        if r == n {
            SystemEntry::One
        } else {
            SystemEntry::CenterCoord { center: c, axis: (r - n - 1) as usize }
        }
    } else {
        SystemEntry::Zero
    }
}

/// The cell of the augmented right-hand side at row `r`, column `c`:
/// component `c` of training value `r` for the leading `n` rows, zero for
/// the polynomial augmentation rows.
pub open spec fn spec_rhs_entry(n: usize, r: usize, c: usize) -> RhsEntry {
    if r < n {
        RhsEntry::Value { sample: r, component: c }
    } else {
        RhsEntry::Zero
    }
}

/// The cell of the evaluation basis vector at index `row`: a basis
/// distance to center `row` for the leading `n` rows, the constant `1` at
/// index `n`, and a query coordinate past it.
pub open spec fn spec_eval_entry(n: usize, row: usize) -> EvalEntry {
    if row < n {
        EvalEntry::BasisDistance { center: row }
    } else if row == n {
        EvalEntry::One
    } else {
        EvalEntry::QueryCoord { axis: (row - n - 1) as usize }
    }
}

/// Compute the system-matrix cell at row `r`, column `c`, for `n` centers.
pub fn system_entry(n: usize, r: usize, c: usize) -> (e: SystemEntry)
    ensures
        e == spec_system_entry(n, r, c),
{
    if r < n && c < n {
        SystemEntry::BasisDistance { i: r, j: c }
    } else if r < n {
        if c == n {
            SystemEntry::One
        } else {
            SystemEntry::CenterCoord { center: r, axis: c - n - 1 }
        }
    } else if c < n {
        if r == n {
            SystemEntry::One
        } else {
            SystemEntry::CenterCoord { center: c, axis: r - n - 1 }
        }
    } else {
        SystemEntry::Zero
    }
}

/// Compute the right-hand-side cell at row `r`, column `c`, for `n`
/// centers.
pub fn rhs_entry(n: usize, r: usize, c: usize) -> (e: RhsEntry)
    ensures
        e == spec_rhs_entry(n, r, c),
{
    if r < n {
        RhsEntry::Value { sample: r, component: c }
    } else {
        RhsEntry::Zero
    }
}

/// Compute the evaluation basis-vector cell at index `row`, for `n`
/// centers.
pub fn eval_entry(n: usize, row: usize) -> (e: EvalEntry)
    ensures
        e == spec_eval_entry(n, row),
{
    if row < n {
        EvalEntry::BasisDistance { center: row }
    } else if row == n {
        EvalEntry::One
    } else {
        EvalEntry::QueryCoord { axis: row - n - 1 }
    }
}

/// Two system cells are mirror images: equal, except that a basis-distance
/// cell has its two centers swapped.
pub open spec fn mirrored(a: SystemEntry, b: SystemEntry) -> bool {
    match a {
        SystemEntry::BasisDistance { i, j } => b == (SystemEntry::BasisDistance { i: j, j: i }),
        _ => b == a,
    }
}

/// The system plan is symmetric: the cell at `(r, c)` is the mirror image
/// of the cell at `(c, r)`. Since the Euclidean distance between two
/// centers does not depend on their order, the numbers the numeric layer
/// fills in therefore form a symmetric matrix.
pub proof fn lemma_system_entry_symmetric(n: usize, r: usize, c: usize)
    ensures
        mirrored(spec_system_entry(n, r, c), spec_system_entry(n, c, r)),
{
}

/// Every reference a system cell makes is in range: inside a system of at
/// most `n + 1 + dim` rows and columns, a basis-distance cell names two
/// centers below `n`, and a center-coordinate cell names a center below
/// `n` and an axis below `dim`. The numeric layer therefore never indexes
/// past the `n` centers of dimension `dim` when it fills the matrix.
pub proof fn lemma_system_entry_in_range(n: usize, dim: usize, r: usize, c: usize)
    requires
        r < n + 1 + dim,
        c < n + 1 + dim,
    ensures
        spec_system_entry(n, r, c) matches SystemEntry::BasisDistance { i, j } ==> i < n && j < n,
        spec_system_entry(n, r, c) matches SystemEntry::CenterCoord { center, axis } ==> center
            < n && axis < dim,
{
}

/// Every reference a right-hand-side cell makes is in range: a value cell
/// names a sample below `n` and passes the requested component through.
pub proof fn lemma_rhs_entry_in_range(n: usize, r: usize, c: usize)
    ensures
        spec_rhs_entry(n, r, c) matches RhsEntry::Value { sample, component } ==> sample < n
            && component == c,
{
}

/// Every reference an evaluation cell makes is in range: inside a basis
/// vector of at most `n + 1 + dim` rows, a basis-distance cell names a
/// center below `n` and a query-coordinate cell an axis below `dim`.
pub proof fn lemma_eval_entry_in_range(n: usize, dim: usize, row: usize)
    requires
        row < n + 1 + dim,
    ensures
        spec_eval_entry(n, row) matches EvalEntry::BasisDistance { center } ==> center < n,
        spec_eval_entry(n, row) matches EvalEntry::QueryCoord { axis } ==> axis < dim,
{
}

/// An evaluation cell reads the same quantity as a given system cell when
/// the query is training center `q`: a distance to the same pair of
/// centers (one side written with the pair swapped), the same constant, or
/// the same coordinate component of center `q`.
pub open spec fn eval_reads_system_column(e: EvalEntry, s: SystemEntry, q: usize) -> bool {
    match e {
        EvalEntry::BasisDistance { center } => s == (SystemEntry::BasisDistance {
            i: center,
            j: q,
        }),
        EvalEntry::One => s == SystemEntry::One,
        EvalEntry::QueryCoord { axis } => s == (SystemEntry::CenterCoord { center: q, axis }),
    }
}

/// Evaluating at training center `q` reads exactly column `q` of the
/// system matrix: each cell of the evaluation basis vector denotes the
/// same number as the system cell in the same row of that column (for the
/// basis cells, up to the order of the two centers, which the symmetry of
/// the Euclidean distance erases). Together with the solve equation
/// `system * coefficients = right-hand side`, this is why a well-
/// conditioned interpolant reproduces every training value at its own
/// center: the coefficient rows multiplied against column `q` yield
/// exactly right-hand-side row `q`, which holds training value `q`.
pub proof fn lemma_eval_at_center_reads_system_column(n: usize, q: usize, row: usize)
    requires
        q < n,
    ensures
        eval_reads_system_column(spec_eval_entry(n, row), spec_system_entry(n, row, q), q),
{
}

} // verus!
