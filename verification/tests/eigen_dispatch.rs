use rgmin::box_objective::box_dims;
use rgmin::dlaf_kind::DlaFutureParams;
use rgmin::error::Error;
use rgmin::lowest_mode::{
    chase_refusal, dense_refusal, dlaf_refusal, eigenexa_refusal, lowest_mode_backend,
    jd_inner_steps, unbuilt_refusal, EigenParams, EigensolverKind, DENSE_EIGEN_CUTOFF,
};
use rgmin::rtr::TcgStop;
use rgmin::slepc_eps::{chk, SlepcPlan, SlepcProblem, SlepcStKind, SlepcWhich};

fn params(kind: EigensolverKind) -> EigenParams {
    EigenParams {
        kind,
        ..EigenParams::default()
    }
}

#[test]
fn linked_kinds_run_themselves() {
    for kind in [
        EigensolverKind::Lanczos,
        EigensolverKind::RayleighRitz,
        EigensolverKind::JacobiDavidson,
        EigensolverKind::Lobpcg,
        EigensolverKind::Dimer,
    ] {
        assert_eq!(lowest_mode_backend(&params(kind), 6), Ok(kind));
    }
}

#[test]
fn unlinked_kinds_fail_closed_without_actions() {
    for raw in 4u8..=13 {
        let kind = EigensolverKind::from_ordinal(raw).unwrap();
        let err = lowest_mode_backend(&params(kind), 4).unwrap_err();
        match err {
            Error::EigenUnavailable { kind: k } => assert_eq!(k, kind),
            Error::EigenFullSpectrum { kind: k, nev, n } => {
                assert_eq!(k, EigensolverKind::EigenExa);
                assert_eq!(kind, EigensolverKind::EigenExa);
                assert!(nev < n);
            }
            other => panic!("expected unavailable or full-spectrum, got {other:?}"),
        }
    }
}

#[test]
fn empty_seed_is_a_dimension_error() {
    assert_eq!(
        lowest_mode_backend(&params(EigensolverKind::Lanczos), 0),
        Err(Error::Dim { got: 0, dim: 0 })
    );
    assert_eq!(eigenexa_refusal(0, 1), Error::Dim { got: 0, dim: 0 });
}

#[test]
fn eigenexa_partial_request_is_refused_as_full_spectrum() {
    let p = EigenParams {
        kind: EigensolverKind::EigenExa,
        nev: 1,
        ..EigenParams::default()
    };
    assert_eq!(
        lowest_mode_backend(&p, 4),
        Err(Error::EigenFullSpectrum {
            kind: EigensolverKind::EigenExa,
            nev: 1,
            n: 4
        })
    );
    assert_eq!(
        eigenexa_refusal(4, 4),
        Error::EigenUnavailable {
            kind: EigensolverKind::EigenExa
        }
    );
    assert_eq!(EigensolverKind::EigenExa.name(), "eigenExa");
}

#[test]
fn dlaf_begin_cutoff_and_unavailable() {
    assert_eq!(
        dlaf_refusal(DENSE_EIGEN_CUTOFF, &DlaFutureParams { begin: 3 }),
        Error::EigenBegin {
            kind: EigensolverKind::DlaFuture,
            begin: 3
        }
    );
    assert_eq!(
        dlaf_refusal(32, &DlaFutureParams::default()),
        Error::EigenDenseCutoff {
            kind: EigensolverKind::DlaFuture,
            n: 32,
            cutoff: DENSE_EIGEN_CUTOFF
        }
    );
    assert_eq!(
        dlaf_refusal(DENSE_EIGEN_CUTOFF, &DlaFutureParams::default()),
        Error::EigenUnavailable {
            kind: EigensolverKind::DlaFuture
        }
    );
    assert_eq!(
        dlaf_refusal(0, &DlaFutureParams { begin: 3 }),
        Error::Dim { got: 0, dim: 0 }
    );
    assert_eq!(DlaFutureParams::default().begin, 0);
}

#[test]
fn dense_entry_cutoff_shape_and_unavailable() {
    assert_eq!(
        dense_refusal(32, 32, EigensolverKind::Elpa),
        Error::EigenDenseCutoff {
            kind: EigensolverKind::Elpa,
            n: 32,
            cutoff: DENSE_EIGEN_CUTOFF
        }
    );
    for kind in [
        EigensolverKind::Elpa,
        EigensolverKind::Elpa2,
        EigensolverKind::Slate,
    ] {
        assert_eq!(
            dense_refusal(DENSE_EIGEN_CUTOFF, DENSE_EIGEN_CUTOFF, kind),
            Error::EigenUnavailable { kind }
        );
    }
    assert_eq!(
        dense_refusal(3, 4, EigensolverKind::Elpa),
        Error::Dim { got: 3, dim: 4 }
    );
    assert_eq!(
        dense_refusal(0, 0, EigensolverKind::Elpa),
        Error::Dim { got: 0, dim: 0 }
    );
    assert_eq!(
        dense_refusal(8, 8, EigensolverKind::Lanczos),
        Error::EigenUnavailable {
            kind: EigensolverKind::Lanczos
        }
    );
}

#[test]
fn chase_entry_checks_shape_then_fails_closed() {
    assert_eq!(
        chase_refusal(8, 8, 8),
        Error::EigenUnavailable {
            kind: EigensolverKind::Chase
        }
    );
    assert_eq!(chase_refusal(8, 7, 8), Error::Dim { got: 8, dim: 7 });
    assert_eq!(chase_refusal(0, 0, 0), Error::Dim { got: 0, dim: 0 });
    assert_eq!(chase_refusal(8, 8, 3), Error::Dim { got: 3, dim: 8 });
    assert_eq!(
        lowest_mode_backend(&params(EigensolverKind::Chase), 4),
        Err(Error::EigenUnavailable {
            kind: EigensolverKind::Chase
        })
    );
}

#[test]
fn chase_degree_extra_and_iterations_defaults() {
    let kick = EigenParams {
        kind: EigensolverKind::Chase,
        nev: 1,
        ..EigenParams::default()
    };
    assert_eq!(kick.chase_degree(), 20);
    assert_eq!(kick.chase_extra(), 8);
    assert_eq!(kick.chase_iterations(), 25);
    assert_ne!(kick.chase_extra(), kick.krylov_dim(32));
    let wide = EigenParams {
        kind: EigensolverKind::Chase,
        nev: 100,
        ..EigenParams::default()
    };
    assert_eq!(wide.chase_extra(), 20);
    let odd = EigenParams {
        nev: 41,
        ..EigenParams::default()
    };
    assert_eq!(odd.chase_extra(), 9);
    let zero = EigenParams {
        nev: 0,
        ..EigenParams::default()
    };
    assert_eq!(zero.chase_extra(), 8);
    let set = EigenParams {
        kind: EigensolverKind::Chase,
        nev: 1,
        degree: 12,
        extra: 4,
        max_iter: 7,
        ..EigenParams::default()
    };
    assert_eq!(set.chase_degree(), 12);
    assert_eq!(set.chase_extra(), 4);
    assert_eq!(set.chase_iterations(), 7);
}

#[test]
fn krylov_dim_and_iterations_defaults() {
    let p = EigenParams::default();
    assert_eq!(p.kind, EigensolverKind::Lanczos);
    assert_eq!(p.nev, 1);
    assert_eq!(p.krylov_dim(32), 12);
    assert_eq!(p.krylov_dim(5), 5);
    assert_eq!(p.krylov_dim(0), 1);
    assert_eq!(p.iterations(3), 3);
    assert_eq!(p.iterations(0), 0);
    assert_eq!(p.iterations(30), 30);
    let q = EigenParams {
        krylov: 50,
        max_iter: 9,
        ..EigenParams::default()
    };
    assert_eq!(q.krylov_dim(16), 16);
    assert_eq!(q.krylov_dim(100), 50);
    assert_eq!(q.iterations(100), 9);
}

#[test]
fn plan_uses_typed_smallest_real_hep() {
    let params = EigenParams {
        kind: EigensolverKind::Slepc,
        nev: 1,
        krylov: 8,
        max_iter: 20,
        ..EigenParams::default()
    };
    let plan = SlepcPlan::from_params(&params, 16, false);
    assert_eq!(plan.which, SlepcWhich::SmallestReal);
    assert_eq!(plan.which.as_slepc(), 4);
    assert_eq!(plan.problem, SlepcProblem::Hep);
    assert_eq!(plan.problem.as_slepc(), 1);
    assert_eq!(plan.nev, 1);
    assert_eq!(plan.ncv, 8);
    assert_eq!(plan.max_it, 20);
    assert_eq!(plan.st, SlepcStKind::Shift);
    assert!(!plan.has_pmat);
}

#[test]
fn plan_host_pmat_selects_stprecond() {
    let params = EigenParams {
        kind: EigensolverKind::Slepc,
        ..EigenParams::default()
    };
    let plan = SlepcPlan::from_params(&params, 8, true);
    assert_eq!(plan.st, SlepcStKind::Precond);
    assert!(plan.has_pmat);
    assert_eq!(plan.which, SlepcWhich::SmallestReal);
    assert_eq!(plan.problem, SlepcProblem::Hep);
    assert_eq!(plan.ncv, 8);
    assert_eq!(plan.max_it, 8);
}

#[test]
fn plan_ncv_is_raised_above_nev() {
    let params = EigenParams {
        kind: EigensolverKind::Slepc,
        nev: 5,
        krylov: 2,
        ..EigenParams::default()
    };
    let plan = SlepcPlan::from_params(&params, 10, false);
    assert_eq!(plan.nev, 5);
    assert_eq!(plan.ncv, 6);
    assert_eq!(plan.max_it, 10);
}

#[test]
fn sttype_literals_are_the_official_closed_map() {
    assert_eq!(SlepcStKind::Shift.as_sttype(), "shift\0");
    assert_eq!(SlepcStKind::Sinvert.as_sttype(), "sinvert\0");
    assert_eq!(SlepcStKind::Precond.as_sttype(), "precond\0");
    let bytes = SlepcStKind::Shift.as_sttype().as_bytes();
    assert_eq!(&bytes[..bytes.len() - 1], b"shift");
    assert_eq!(bytes.iter().filter(|&&b| b == 0).count(), 1);
}

#[test]
fn petsc_status_codes_map_to_oracle_errors() {
    assert_eq!(chk(0, "EPSSolve"), Ok(()));
    assert_eq!(chk(73, "EPSSolve"), Err(Error::Oracle { what: "EPSSolve" }));
}

#[test]
fn box_side_lengths_are_empty_broadcast_or_full() {
    assert_eq!(box_dims(None, None, 3, 3, 3), Ok(()));
    assert_eq!(box_dims(Some(0), Some(1), 3, 3, 3), Ok(()));
    assert_eq!(box_dims(Some(3), Some(3), 3, 3, 3), Ok(()));
    assert_eq!(box_dims(Some(2), Some(5), 3, 3, 3), Err(Error::Dim { got: 2, dim: 3 }));
    assert_eq!(box_dims(None, Some(5), 3, 3, 3), Err(Error::Dim { got: 5, dim: 3 }));
    assert_eq!(box_dims(None, None, 2, 3, 3), Err(Error::Dim { got: 2, dim: 3 }));
    assert_eq!(box_dims(None, None, 3, 4, 3), Err(Error::Dim { got: 3, dim: 3 }));
}

#[test]
fn tcg_stop_reasons_are_distinct() {
    let all = [
        TcgStop::NegativeCurvature,
        TcgStop::Boundary,
        TcgStop::Residual,
        TcgStop::MaxIter,
        TcgStop::ZeroGradient,
    ];
    for (i, a) in all.iter().enumerate() {
        assert_eq!(*a as u8 as usize, i);
        for (j, b) in all.iter().enumerate() {
            assert_eq!(i == j, a == b);
        }
    }
}

#[test]
fn slepc_tokens_carry_the_header_integers() {
    assert_eq!(SlepcWhich::LargestMagnitude.as_slepc(), 1);
    assert_eq!(SlepcWhich::SmallestReal.as_slepc(), 4);
    assert_eq!(SlepcWhich::WhichUser.as_slepc(), 11);
    assert_eq!(SlepcProblem::Hep.as_slepc(), 1);
    assert_eq!(SlepcProblem::Lrep.as_slepc(), 9);
}

#[test]
fn unbuilt_arms_refuse_with_dim_then_unavailable() {
    assert_eq!(
        unbuilt_refusal(EigensolverKind::Primme, 0),
        Error::Dim { got: 0, dim: 0 }
    );
    assert_eq!(
        unbuilt_refusal(EigensolverKind::Slepc, 4),
        Error::EigenUnavailable { kind: EigensolverKind::Slepc }
    );
}

#[test]
fn dimer_and_jd_counts() {
    assert_eq!(EigenParams::default().dimer_rotations(), 20);
    let p = EigenParams {
        max_iter: 3,
        ..EigenParams::default()
    };
    assert_eq!(p.dimer_rotations(), 3);
    assert_eq!(jd_inner_steps(0), 4);
    assert_eq!(jd_inner_steps(40), 10);
    assert_eq!(jd_inner_steps(1000), 16);
}
