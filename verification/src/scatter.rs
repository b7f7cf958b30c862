use vstd::prelude::*;

use crate::basis::Basis;
use crate::plan::EvalEntry;
use crate::plan::RhsEntry;
use crate::plan::SystemEntry;
use crate::plan::eval_entry;
use crate::plan::rhs_entry;
use crate::plan::spec_eval_entry;
use crate::plan::spec_rhs_entry;
use crate::plan::spec_system_entry;
use crate::plan::system_entry;

verus! {

/// Why constructing an interpolant failed.
#[derive(Clone, Copy, Debug, PartialEq, Eq, Structural)]
pub enum ConstructionError {
    /// The polynomial order was outside `{0, 1, 2}`; rejected before any
    /// computation.
    UnsupportedOrder,
    /// The assembled system matrix has no inverse (duplicate or
    /// near-duplicate centers, or an underdetermined augmented system).
    /// Reported by the numeric layer when its solve fails.
    Singular,
}

/// The structural shape of one interpolant: the basis kind, the number of
/// centers, the coordinate dimension, the value dimension, and the
/// polynomial order. The shape determines the size of the augmented
/// system and the quantity in every cell of the matrices the numeric
/// layer fills; the centers, values, and solved coefficients themselves
/// are real-number data that lives with the numeric layer.
#[derive(Clone, Copy, Debug)]
pub struct Scatter {
    basis: Basis,
    n_centers: usize,
    dim: usize,
    n_out: usize,
    order: usize,
}

impl Scatter {
    #[verifier::type_invariant]
    spec fn wf(self) -> bool {
        &&& 1 <= self.n_centers
        &&& self.n_centers + 1 + self.dim <= usize::MAX
        &&& self.order <= 2
    }

    /// The basis kind the interpolant uses.
    pub closed spec fn spec_basis(self) -> Basis {
        self.basis
    }

    /// The number of training centers.
    pub closed spec fn spec_n_centers(self) -> usize {
        self.n_centers
    }

    /// The dimension of every center and query coordinate.
    pub closed spec fn spec_dim(self) -> usize {
        self.dim
    }

    /// The dimension of every training and interpolated value.
    pub closed spec fn spec_n_out(self) -> usize {
        self.n_out
    }

    /// The polynomial order: 0 for no augmentation, 1 for a constant term,
    /// 2 for a constant term plus one linear term per coordinate dimension.
    pub closed spec fn spec_order(self) -> usize {
        self.order
    }

    /// How many rows and columns the polynomial augmentation appends to
    /// the system: none, the one constant row, or the constant row plus
    /// one row per coordinate dimension.
    pub open spec fn spec_augmentation(self) -> int {
        if self.spec_order() == 0 {
            0
        } else if self.spec_order() == 1 {
            1
        } else {
            1 + self.spec_dim()
        }
    }

    /// The size of the square augmented system: one row per center plus
    /// the polynomial augmentation.
    pub open spec fn spec_n_aug(self) -> int {
        self.spec_n_centers() + self.spec_augmentation()
    }

    /// Build the shape of an interpolant over `n_centers` training centers
    /// of dimension `dim` with values of dimension `n_out`. Succeeds for
    /// every polynomial order in `{0, 1, 2}` and fails with
    /// `UnsupportedOrder` for every other order, before any computation.
    pub fn create(basis: Basis, n_centers: usize, dim: usize, n_out: usize, order: usize) -> (r:
        Result<Scatter, ConstructionError>)
        requires
            1 <= n_centers,
            n_centers + 1 + dim <= usize::MAX,
        ensures
            order <= 2 ==> (r matches Ok(s) && s.spec_basis() == basis && s.spec_n_centers()
                == n_centers && s.spec_dim() == dim && s.spec_n_out() == n_out && s.spec_order()
                == order),
            order > 2 ==> r == Err::<Scatter, ConstructionError>(
                ConstructionError::UnsupportedOrder,
            ),
    {
        if order > 2 {
            Err(ConstructionError::UnsupportedOrder)
        } else {
            Ok(Scatter { basis, n_centers, dim, n_out, order })
        }
    }

    /// The basis kind the interpolant uses.
    pub fn basis(&self) -> (b: Basis)
        ensures
            b == self.spec_basis(),
    {
        self.basis
    }

    /// The number of training centers.
    pub fn n_centers(&self) -> (n: usize)
        ensures
            n == self.spec_n_centers(),
    {
        self.n_centers
    }

    /// The dimension of every center and query coordinate.
    pub fn dim(&self) -> (d: usize)
        ensures
            d == self.spec_dim(),
    {
        self.dim
    }

    /// The dimension of every training and interpolated value.
    pub fn n_out(&self) -> (d: usize)
        ensures
            d == self.spec_n_out(),
    {
        self.n_out
    }

    /// The polynomial order the shape was built with.
    pub fn order(&self) -> (o: usize)
        ensures
            o == self.spec_order(),
    {
        self.order
    }

    /// The size of the square augmented system.
    pub fn n_aug(&self) -> (r: usize)
        ensures
            r == self.spec_n_aug(),
    {
        proof {
            use_type_invariant(&*self);
        }
        if self.order == 0 {
            self.n_centers
        } else if self.order == 1 {
            self.n_centers + 1
        } else {
            self.n_centers + 1 + self.dim
        }
    }

    /// The full plan of the square system matrix: row by row, the quantity
    /// that belongs in every cell.
    pub fn system_plan(&self) -> (m: Vec<Vec<SystemEntry>>)
        ensures
            m@.len() == self.spec_n_aug(),
            forall|r: int| 0 <= r < m@.len() ==> (#[trigger] m@[r])@.len() == self.spec_n_aug(),
            forall|r: int, c: int|
                0 <= r < m@.len() && 0 <= c < m@.len() ==> #[trigger] m@[r]@[c]
                    == spec_system_entry(self.spec_n_centers(), r as usize, c as usize),
    {
        let n = self.n_centers;
        let n_aug = self.n_aug();
        let mut rows: Vec<Vec<SystemEntry>> = Vec::new();
        let mut r: usize = 0;
        while r < n_aug
            invariant
                r <= n_aug,
                rows@.len() == r,
                forall|i: int| 0 <= i < r ==> (#[trigger] rows@[i])@.len() == n_aug,
                forall|i: int, j: int|
                    0 <= i < r && 0 <= j < n_aug ==> #[trigger] rows@[i]@[j] == spec_system_entry(
                        n,
                        i as usize,
                        j as usize,
                    ),
            decreases n_aug - r,
        {
            let mut row: Vec<SystemEntry> = Vec::new();
            let mut c: usize = 0;
            while c < n_aug
                invariant
                    c <= n_aug,
                    row@.len() == c,
                    forall|j: int|
                        0 <= j < c ==> #[trigger] row@[j] == spec_system_entry(
                            n,
                            r as usize,
                            j as usize,
                        ),
                decreases n_aug - c,
            {
                row.push(system_entry(n, r, c));
                c = c + 1;
            }
            rows.push(row);
            r = r + 1;
        }
        rows
    }

    /// The full plan of the augmented right-hand-side matrix: the training
    /// values in the leading rows, zero padding in the polynomial rows.
    pub fn rhs_plan(&self) -> (m: Vec<Vec<RhsEntry>>)
        ensures
            m@.len() == self.spec_n_aug(),
            forall|r: int| 0 <= r < m@.len() ==> (#[trigger] m@[r])@.len() == self.spec_n_out(),
            forall|r: int, c: int|
                0 <= r < m@.len() && 0 <= c < self.spec_n_out() ==> #[trigger] m@[r]@[c]
                    == spec_rhs_entry(self.spec_n_centers(), r as usize, c as usize),
    {
        let n = self.n_centers;
        let n_out = self.n_out;
        let n_aug = self.n_aug();
        let mut rows: Vec<Vec<RhsEntry>> = Vec::new();
        let mut r: usize = 0;
        while r < n_aug
            invariant
                r <= n_aug,
                rows@.len() == r,
                forall|i: int| 0 <= i < r ==> (#[trigger] rows@[i])@.len() == n_out,
                forall|i: int, j: int|
                    0 <= i < r && 0 <= j < n_out ==> #[trigger] rows@[i]@[j] == spec_rhs_entry(
                        n,
                        i as usize,
                        j as usize,
                    ),
            decreases n_aug - r,
        {
            let mut row: Vec<RhsEntry> = Vec::new();
            let mut c: usize = 0;
            while c < n_out
                invariant
                    c <= n_out,
                    row@.len() == c,
                    forall|j: int|
                        0 <= j < c ==> #[trigger] row@[j] == spec_rhs_entry(
                            n,
                            r as usize,
                            j as usize,
                        ),
                decreases n_out - c,
            {
                row.push(rhs_entry(n, r, c));
                c = c + 1;
            }
            rows.push(row);
            r = r + 1;
        }
        rows
    }

    /// The plan of the basis vector built for one evaluation: a basis
    /// distance to each center, then the constant term and the query
    /// coordinates as far as the polynomial order reaches.
    pub fn eval_plan(&self) -> (v: Vec<EvalEntry>)
        ensures
            v@.len() == self.spec_n_aug(),
            forall|row: int|
                0 <= row < v@.len() ==> #[trigger] v@[row] == spec_eval_entry(
                    self.spec_n_centers(),
                    row as usize,
                ),
    {
        let n = self.n_centers;
        let n_aug = self.n_aug();
        let mut v: Vec<EvalEntry> = Vec::new();
        let mut row: usize = 0;
        while row < n_aug
            invariant
                row <= n_aug,
                v@.len() == row,
                forall|i: int|
                    0 <= i < row ==> #[trigger] v@[i] == spec_eval_entry(n, i as usize),
            decreases n_aug - row,
        {
            v.push(eval_entry(n, row));
            row = row + 1;
        }
        v
    }
}

} // verus!
