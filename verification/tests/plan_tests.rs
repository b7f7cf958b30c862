use rbf_interp::{Basis, BasisForm, ConstructionError, EvalEntry, RhsEntry, Scatter, SystemEntry};

#[test]
fn form_even_exponent_is_guarded_log() {
    assert_eq!(Basis::PolyHarmonic(2).form(), BasisForm::LogPolyHarmonic(2));
    assert_eq!(Basis::PolyHarmonic(4).form(), BasisForm::LogPolyHarmonic(4));
}

#[test]
fn form_odd_exponent_is_plain_power() {
    assert_eq!(Basis::PolyHarmonic(1).form(), BasisForm::PlainPolyHarmonic(1));
    assert_eq!(Basis::PolyHarmonic(3).form(), BasisForm::PlainPolyHarmonic(3));
    assert_eq!(Basis::PolyHarmonic(-3).form(), BasisForm::PlainPolyHarmonic(-3));
}

#[test]
fn form_gaussian() {
    assert_eq!(Basis::Gaussian.form(), BasisForm::GaussianExp);
}

#[test]
fn create_rejects_unsupported_order() {
    for order in 3usize..6 {
        let r = Scatter::create(Basis::Gaussian, 4, 2, 1, order);
        assert_eq!(r.unwrap_err(), ConstructionError::UnsupportedOrder);
    }
}

#[test]
fn augmented_size_by_order() {
    let s0 = Scatter::create(Basis::PolyHarmonic(3), 5, 2, 1, 0).unwrap();
    assert_eq!(s0.n_aug(), 5);
    let s1 = Scatter::create(Basis::PolyHarmonic(3), 5, 2, 1, 1).unwrap();
    assert_eq!(s1.n_aug(), 6);
    let s2 = Scatter::create(Basis::PolyHarmonic(3), 5, 2, 1, 2).unwrap();
    assert_eq!(s2.n_aug(), 8);
}

#[test]
fn shape_getters_report_inputs() {
    let s = Scatter::create(Basis::PolyHarmonic(2), 7, 2, 3, 2).unwrap();
    assert_eq!(s.basis(), Basis::PolyHarmonic(2));
    assert_eq!(s.n_centers(), 7);
    assert_eq!(s.dim(), 2);
    assert_eq!(s.n_out(), 3);
    assert_eq!(s.order(), 2);
    assert_eq!(s.n_aug(), 10);
}

#[test]
fn system_plan_cells_order_two() {
    // Two centers of dimension one with a full polynomial augmentation:
    // the system is 4 x 4.
    let s = Scatter::create(Basis::PolyHarmonic(1), 2, 1, 1, 2).unwrap();
    let m = s.system_plan();
    assert_eq!(m.len(), 4);
    for row in &m {
        assert_eq!(row.len(), 4);
    }
    assert_eq!(m[0][0], SystemEntry::BasisDistance { i: 0, j: 0 });
    assert_eq!(m[0][1], SystemEntry::BasisDistance { i: 0, j: 1 });
    assert_eq!(m[1][0], SystemEntry::BasisDistance { i: 1, j: 0 });
    assert_eq!(m[0][2], SystemEntry::One);
    assert_eq!(m[1][2], SystemEntry::One);
    assert_eq!(m[2][0], SystemEntry::One);
    assert_eq!(m[0][3], SystemEntry::CenterCoord { center: 0, axis: 0 });
    assert_eq!(m[3][1], SystemEntry::CenterCoord { center: 1, axis: 0 });
    assert_eq!(m[2][2], SystemEntry::Zero);
    assert_eq!(m[2][3], SystemEntry::Zero);
    assert_eq!(m[3][3], SystemEntry::Zero);
}

#[test]
fn system_plan_no_augmentation_is_all_basis() {
    let s = Scatter::create(Basis::Gaussian, 3, 2, 1, 0).unwrap();
    let m = s.system_plan();
    assert_eq!(m.len(), 3);
    for r in 0usize..3 {
        for c in 0usize..3 {
            assert_eq!(m[r][c], SystemEntry::BasisDistance { i: r, j: c });
        }
    }
}

#[test]
fn system_plan_is_symmetric() {
    let s = Scatter::create(Basis::PolyHarmonic(2), 4, 3, 2, 2).unwrap();
    let m = s.system_plan();
    let n_aug = s.n_aug();
    assert_eq!(m.len(), n_aug);
    for r in 0..n_aug {
        for c in 0..n_aug {
            let mirror = match m[r][c] {
                SystemEntry::BasisDistance { i, j } => SystemEntry::BasisDistance { i: j, j: i },
                other => other,
            };
            assert_eq!(m[c][r], mirror);
        }
    }
}

#[test]
fn rhs_plan_pads_polynomial_rows_with_zero() {
    let s = Scatter::create(Basis::PolyHarmonic(1), 2, 1, 2, 1).unwrap();
    let m = s.rhs_plan();
    assert_eq!(m.len(), 3);
    for row in &m {
        assert_eq!(row.len(), 2);
    }
    assert_eq!(m[0][0], RhsEntry::Value { sample: 0, component: 0 });
    assert_eq!(m[0][1], RhsEntry::Value { sample: 0, component: 1 });
    assert_eq!(m[1][0], RhsEntry::Value { sample: 1, component: 0 });
    assert_eq!(m[2][0], RhsEntry::Zero);
    assert_eq!(m[2][1], RhsEntry::Zero);
}

#[test]
fn eval_plan_layout() {
    let s = Scatter::create(Basis::Gaussian, 2, 2, 1, 2).unwrap();
    let v = s.eval_plan();
    assert_eq!(v.len(), 5);
    assert_eq!(v[0], EvalEntry::BasisDistance { center: 0 });
    assert_eq!(v[1], EvalEntry::BasisDistance { center: 1 });
    assert_eq!(v[2], EvalEntry::One);
    assert_eq!(v[3], EvalEntry::QueryCoord { axis: 0 });
    assert_eq!(v[4], EvalEntry::QueryCoord { axis: 1 });
}

#[test]
fn eval_plan_matches_system_column_at_center() {
    // Evaluating at training center q must read column q of the system
    // plan, up to swapping the two centers of a basis cell.
    let s = Scatter::create(Basis::PolyHarmonic(3), 4, 2, 1, 2).unwrap();
    let m = s.system_plan();
    let v = s.eval_plan();
    for q in 0usize..4 {
        for (row, e) in v.iter().enumerate() {
            match *e {
                EvalEntry::BasisDistance { center } => {
                    assert_eq!(m[row][q], SystemEntry::BasisDistance { i: center, j: q });
                }
                EvalEntry::One => assert_eq!(m[row][q], SystemEntry::One),
                EvalEntry::QueryCoord { axis } => {
                    assert_eq!(m[row][q], SystemEntry::CenterCoord { center: q, axis });
                }
            }
        }
    }
}
