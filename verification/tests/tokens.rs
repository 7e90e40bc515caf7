use rgmin::eigenexa_kind::{EigenExaAlgo, EigenExaParams};
use rgmin::elpa_kind::{elpa_config, ElpaParams, ElpaStage};
use rgmin::highs_kind::{HighsCallbackKind, HighsCrossover, HighsSolverKind};
use rgmin::lowest_mode::{
    EigensolverKind, IdentityPrecond, PreconditionerKind, DENSE_EIGEN_CUTOFF,
};

#[test]
fn elpa_kind_maps_to_solver_integers() {
    assert_eq!(ElpaStage::from_kind(EigensolverKind::Elpa), Some(ElpaStage::OneStage));
    assert_eq!(ElpaStage::from_kind(EigensolverKind::Elpa2), Some(ElpaStage::TwoStage));
    assert_eq!(ElpaStage::OneStage.elpa_solver(), 1);
    assert_eq!(ElpaStage::TwoStage.elpa_solver(), 2);
    assert_eq!(ElpaStage::from_solver(1), Some(ElpaStage::OneStage));
    assert_eq!(ElpaStage::from_solver(2), Some(ElpaStage::TwoStage));
    assert!(ElpaStage::from_solver(0).is_none());
    assert!(ElpaStage::from_kind(EigensolverKind::Slate).is_none());
    assert!(ElpaStage::from_kind(EigensolverKind::Lanczos).is_none());
    assert_eq!(elpa_config(EigensolverKind::Elpa, &ElpaParams::default()), Some((1, 16)));
    assert_eq!(
        elpa_config(EigensolverKind::Elpa2, &ElpaParams { nblk: 32 }),
        Some((2, 32))
    );
    assert_eq!(ElpaParams::default().nblk_or_default(), 16);
    assert_eq!(EigensolverKind::from_ordinal(7), Some(EigensolverKind::Elpa));
    assert_eq!(EigensolverKind::from_ordinal(8), Some(EigensolverKind::Elpa2));
    assert!(EigensolverKind::from_ordinal(15).is_none());
    assert!(!EigensolverKind::Elpa.is_linked());
    assert!(!EigensolverKind::Elpa2.is_linked());
}

#[test]
fn solver_tokens_are_closed() {
    assert_eq!(HighsSolverKind::from_ordinal(2), Some(HighsSolverKind::Ipm));
    assert_eq!(HighsSolverKind::from_ordinal(3), Some(HighsSolverKind::Ipx));
    assert_eq!(HighsSolverKind::from_ordinal(4), Some(HighsSolverKind::Hipo));
    assert!(HighsSolverKind::from_ordinal(8).is_none());
    assert_eq!(HighsSolverKind::Ipm.as_highs(), Some("ipm"));
    assert_eq!(HighsSolverKind::Choose.as_highs(), None);
}

#[test]
fn crossover_tokens_are_closed() {
    assert_eq!(HighsCrossover::from_ordinal(2), Some(HighsCrossover::Off));
    assert!(HighsCrossover::from_ordinal(3).is_none());
    assert_eq!(HighsCrossover::Off.as_highs(), Some("off"));
}

#[test]
fn callback_tokens_match_highs() {
    assert_eq!(
        HighsCallbackKind::from_ordinal(2),
        Some(HighsCallbackKind::IpmInterrupt)
    );
    assert!(HighsCallbackKind::from_ordinal(3).is_none());
}

#[test]
fn schema_ordinals_are_the_closed_enum() {
    for raw in 0u8..=14 {
        let kind = EigensolverKind::from_ordinal(raw).expect("ordinal in range");
        assert_eq!(kind as u8, raw);
    }
    assert!(EigensolverKind::from_ordinal(15).is_none());
    assert_eq!(EigensolverKind::Lanczos.name(), "lanczos");
    assert_eq!(EigensolverKind::Dimer.name(), "dimer");
    assert_eq!(EigensolverKind::EigenExa.name(), "eigenExa");
    assert_eq!(DENSE_EIGEN_CUTOFF, 512);
}

#[test]
fn preconditioner_ordinals_are_closed() {
    assert_eq!(PreconditionerKind::from_ordinal(0), Some(PreconditionerKind::Identity));
    assert_eq!(PreconditionerKind::from_ordinal(1), Some(PreconditionerKind::Diagonal));
    assert_eq!(PreconditionerKind::from_ordinal(2), Some(PreconditionerKind::Block3));
    assert_eq!(PreconditionerKind::from_ordinal(3), Some(PreconditionerKind::User));
    assert!(PreconditionerKind::from_ordinal(4).is_none());
    assert_eq!(IdentityPrecond.kind(), PreconditionerKind::Identity);
}

#[test]
fn eigenexa_algo_ordinals_are_closed() {
    assert_eq!(EigenExaAlgo::S as u8, 0);
    assert_eq!(EigenExaAlgo::Sx as u8, 1);
    assert_eq!(EigenExaAlgo::S.name(), "eigen_s");
    assert_eq!(EigenExaAlgo::Sx.name(), "eigen_sx");
    assert!(EigenExaAlgo::from_ordinal(2).is_none());
    assert_eq!(EigenExaParams::default().algo, EigenExaAlgo::Sx);
}

#[test]
fn every_eigensolver_ordinal_round_trips_and_names_are_distinct() {
    let mut names = Vec::new();
    for raw in 0u8..=255 {
        match EigensolverKind::from_ordinal(raw) {
            Some(kind) => {
                assert!(raw <= 14);
                assert_eq!(EigensolverKind::from_ordinal(kind as u8), Some(kind));
                names.push(kind.name());
            }
            None => assert!(raw > 14),
        }
    }
    let mut sorted = names.clone();
    sorted.sort();
    sorted.dedup();
    assert_eq!(sorted.len(), 15);
}

#[test]
fn linked_kinds_are_the_five_matrix_free_solvers() {
    let linked: Vec<u8> = (0u8..=14)
        .filter(|&r| EigensolverKind::from_ordinal(r).unwrap().is_linked())
        .collect();
    assert_eq!(linked, vec![0, 1, 2, 3, 14]);
    for raw in 0u8..=14 {
        let kind = EigensolverKind::from_ordinal(raw).unwrap();
        if kind.is_linked() {
            assert!(kind.is_matrix_free());
        }
    }
    assert!(EigensolverKind::Primme.is_matrix_free());
    assert!(EigensolverKind::Slepc.is_matrix_free());
    assert!(!EigensolverKind::Chase.is_matrix_free());
    assert!(!EigensolverKind::Chase.is_linked());
}

#[test]
fn preconditioner_names_and_round_trip() {
    for raw in 0u8..=3 {
        let kind = PreconditionerKind::from_ordinal(raw).unwrap();
        assert_eq!(kind as u8, raw);
    }
    assert_eq!(PreconditionerKind::Identity.name(), "none");
    assert_eq!(PreconditionerKind::Diagonal.name(), "diagonal");
    assert_eq!(PreconditionerKind::Block3.name(), "block3");
    assert_eq!(PreconditionerKind::User.name(), "user");
    assert!(PreconditionerKind::from_ordinal(255).is_none());
}

#[test]
fn elpa_stage_names_and_solver_round_trip() {
    assert_eq!(ElpaStage::OneStage.name(), "oneStage");
    assert_eq!(ElpaStage::TwoStage.name(), "twoStage");
    for s in [ElpaStage::OneStage, ElpaStage::TwoStage] {
        assert_eq!(ElpaStage::from_solver(s.elpa_solver()), Some(s));
    }
    assert!(ElpaStage::from_solver(3).is_none());
    assert!(ElpaStage::from_solver(-1).is_none());
    assert_eq!(ElpaParams { nblk: 7 }.nblk_or_default(), 7);
    assert_eq!(elpa_config(EigensolverKind::Dimer, &ElpaParams { nblk: 7 }), None);
}

#[test]
fn highs_tokens_round_trip_and_strings() {
    let expect = [
        (HighsSolverKind::Choose, None),
        (HighsSolverKind::Simplex, Some("simplex")),
        (HighsSolverKind::Ipm, Some("ipm")),
        (HighsSolverKind::Ipx, Some("ipx")),
        (HighsSolverKind::Hipo, Some("hipo")),
        (HighsSolverKind::Pdlp, Some("pdlp")),
        (HighsSolverKind::Hipdlp, Some("hipdlp")),
        (HighsSolverKind::Qpasm, Some("qpasm")),
    ];
    for (raw, (kind, s)) in expect.iter().enumerate() {
        assert_eq!(HighsSolverKind::from_ordinal(raw as i32), Some(*kind));
        assert_eq!(kind.as_highs(), *s);
    }
    assert!(HighsSolverKind::from_ordinal(-1).is_none());
    assert_eq!(HighsCrossover::from_ordinal(0), Some(HighsCrossover::Choose));
    assert_eq!(HighsCrossover::from_ordinal(1), Some(HighsCrossover::On));
    assert_eq!(HighsCrossover::On.as_highs(), Some("on"));
    assert_eq!(HighsCrossover::Choose.as_highs(), None);
    assert!(HighsCrossover::from_ordinal(-1).is_none());
    assert_eq!(HighsCallbackKind::from_ordinal(0), Some(HighsCallbackKind::Logging));
    assert_eq!(
        HighsCallbackKind::from_ordinal(1),
        Some(HighsCallbackKind::SimplexInterrupt)
    );
    assert!(HighsCallbackKind::from_ordinal(-1).is_none());
}
