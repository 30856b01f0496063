use range_commit::circuit::{Mode, Operand, RangeCommitCircuit, Step, Violation, WitnessError};
use range_commit::commitment::commit;
use range_commit::layout::{
    configure, Column, ColumnKind, ConfigurationError, Ledger, COMPARISON_ADVICE, COMPARISON_ROWS,
    RESERVED_ROWS, SECRET_ADVICE, TABLE_ROWS_NEEDED, WINDOWS, WINDOW_BITS,
};
use range_commit::pipeline::{OrderError, Phase, Round, RoundEvent};
use range_commit::statement::{
    instance_for, satisfies, Instance, PublicValue, COMMITMENT_ROW, INSTANCE_LEN, LOWER_ROW,
    UPPER_ROW,
};

#[test]
fn valid_range_round_trip() {
    let instance = instance_for(27, 18, 65);
    assert!(satisfies(27, &instance));
    assert!(instance.commitment.same_as(&commit(27)));
    let circuit = RangeCommitCircuit::new(27, 18, 65);
    assert!(circuit.check(&instance).is_ok());
}

#[test]
fn lower_boundary_rejected() {
    let instance = instance_for(18, 18, 65);
    assert!(!satisfies(18, &instance));
    let circuit = RangeCommitCircuit::new(18, 18, 65);
    assert!(matches!(circuit.check(&instance), Err(Violation::NotAboveLower)));
}

#[test]
fn upper_boundary_rejected() {
    let instance = instance_for(65, 18, 65);
    assert!(!satisfies(65, &instance));
    let circuit = RangeCommitCircuit::new(65, 18, 65);
    assert!(matches!(circuit.check(&instance), Err(Violation::NotBelowUpper)));
}

#[test]
fn out_of_range_rejected() {
    let instance = instance_for(10, 18, 65);
    assert!(!satisfies(10, &instance));
    let circuit = RangeCommitCircuit::new(10, 18, 65);
    assert!(matches!(circuit.check(&instance), Err(Violation::NotAboveLower)));
}

#[test]
fn just_inside_both_bounds_accepted() {
    assert!(satisfies(19, &instance_for(19, 18, 65)));
    assert!(satisfies(64, &instance_for(64, 18, 65)));
    assert!(satisfies(u64::MAX - 1, &instance_for(u64::MAX - 1, 0, u64::MAX)));
}

#[test]
fn empty_range_rejects_everything() {
    assert!(!satisfies(18, &instance_for(18, 18, 19)));
    assert!(!satisfies(19, &instance_for(19, 18, 19)));
}

#[test]
fn commitment_is_deterministic_and_binding() {
    let a = commit(27);
    let b = commit(27);
    let c = commit(28);
    assert_eq!(a.bytes, b.bytes);
    assert!(a.same_as(&b));
    assert!(!a.same_as(&c));
    assert_ne!(a.bytes, c.bytes);
}

#[test]
fn commitment_is_not_the_secret_itself() {
    let mut plain = [0u8; 32];
    plain[0] = 27;
    assert_ne!(commit(27).bytes, plain);
    assert_ne!(commit(0).bytes, [0u8; 32]);
}

#[test]
fn foreign_commitment_is_a_mismatch() {
    let instance = Instance::new(commit(28), 18, 65);
    assert!(!satisfies(27, &instance));
    let circuit = RangeCommitCircuit::new(27, 18, 65);
    assert!(matches!(circuit.check(&instance), Err(Violation::CommitmentMismatch)));
    let digest = commit(27);
    assert!(matches!(
        circuit.check_with_digest(&instance, &digest),
        Err(Violation::CommitmentMismatch)
    ));
    let honest = circuit.instance(digest);
    assert!(circuit.check_with_digest(&honest, &digest).is_ok());
}

#[test]
fn missing_secret_is_reported() {
    let circuit = RangeCommitCircuit::default();
    let instance = instance_for(27, 18, 65);
    assert!(matches!(circuit.check(&instance), Err(Violation::MissingSecret)));
    assert!(matches!(circuit.synthesize(Mode::Prove), Err(WitnessError::MissingSecret)));
}

#[test]
fn instance_layout_is_commitment_lower_upper() {
    let instance = instance_for(27, 18, 65);
    let column = instance.column();
    assert_eq!(column.len(), INSTANCE_LEN);
    assert!(matches!(column[COMMITMENT_ROW], PublicValue::Digest(c) if c.same_as(&commit(27))));
    assert!(matches!(column[LOWER_ROW], PublicValue::Bound(18)));
    assert!(matches!(column[UPPER_ROW], PublicValue::Bound(65)));
    assert!(matches!(instance.slot(UPPER_ROW), Some(PublicValue::Bound(65))));
    assert!(instance.slot(3).is_none());
}

#[test]
fn keygen_assigns_no_value() {
    let circuit = RangeCommitCircuit::new(27, 18, 65);
    let steps = circuit.synthesize(Mode::KeyGen).unwrap();
    assert_eq!(steps.len(), 7);
    assert!(matches!(steps[0], Step::LoadSecret(None)));
    let empty = circuit.without_witnesses();
    assert!(empty.secret.is_none());
    let from_empty = empty.synthesize(Mode::KeyGen).unwrap();
    assert_eq!(from_empty.len(), 7);
    assert!(matches!(from_empty[0], Step::LoadSecret(None)));
}

#[test]
fn proving_steps_follow_the_layout() {
    let steps = RangeCommitCircuit::new(27, 18, 65).synthesize(Mode::Prove).unwrap();
    assert_eq!(steps.len(), 7);
    assert!(matches!(steps[0], Step::LoadSecret(Some(27))));
    assert!(matches!(steps[1], Step::LoadBound(Operand::Lower, 1)));
    assert!(matches!(steps[2], Step::LoadBound(Operand::Upper, 2)));
    assert!(matches!(steps[3], Step::Commit));
    assert!(matches!(steps[4], Step::ExposeCommitment(0)));
    assert!(matches!(steps[5], Step::AssertLess(Operand::Lower, Operand::Secret)));
    assert!(matches!(steps[6], Step::AssertLess(Operand::Secret, Operand::Upper)));
}

#[test]
fn same_keys_serve_many_witnesses() {
    let keygen = RangeCommitCircuit::default().synthesize(Mode::KeyGen).unwrap();
    for secret in [19u64, 27, 40, 64] {
        let circuit = RangeCommitCircuit::new(secret, 18, 65);
        let steps = circuit.synthesize(Mode::Prove).unwrap();
        assert_eq!(steps.len(), keygen.len());
        assert!(circuit.check(&instance_for(secret, 18, 65)).is_ok());
    }
}

#[test]
fn ledger_table_size() {
    assert!(matches!(Ledger::new(64), Err(ConfigurationError::TableTooLarge)));
    assert_eq!(Ledger::new(8).unwrap().rows, 256);
    assert_eq!(Ledger::new(0).unwrap().rows, 1);
    assert_eq!(Ledger::new(63).unwrap().rows, 1u64 << 63);
}

#[test]
fn ledger_refuses_overlaps_and_overruns() {
    let mut ledger = Ledger::new(3).unwrap();
    let a = Column { kind: ColumnKind::Advice, index: 0 };
    let b = Column { kind: ColumnKind::Advice, index: 1 };
    assert!(ledger.claim(a, 0, 2).is_ok());
    assert!(matches!(ledger.claim(a, 1, 2), Err(ConfigurationError::Overlap)));
    assert!(ledger.claim(a, 2, 2).is_ok());
    assert!(ledger.claim(b, 1, 2).is_ok());
    assert!(matches!(ledger.claim(b, 6, 3), Err(ConfigurationError::OutOfRows)));
    assert!(matches!(ledger.claim(b, 4, 0), Err(ConfigurationError::OutOfRows)));
    assert!(matches!(ledger.claim(b, u64::MAX, 2), Err(ConfigurationError::OutOfRows)));
    assert_eq!(ledger.claims.len(), 3);
    assert_eq!(ledger.rows_used(), 4);
    assert!(ledger.claim(b, 3, 5).is_ok());
    assert_eq!(ledger.rows_used(), 8);
}

#[test]
fn configure_refuses_tables_too_small_for_the_circuit() {
    for k in [0u32, 1, 2, 3, 5, 6] {
        assert!(matches!(configure(k), Err(ConfigurationError::OutOfRows)));
    }
    assert!(matches!(configure(64), Err(ConfigurationError::TableTooLarge)));
    assert!(configure(7).is_ok());
    assert!(configure(63).is_ok());
}

#[test]
fn configure_claims_every_region() {
    let config = configure(8).unwrap();
    assert_eq!(config.instance, Column { kind: ColumnKind::Instance, index: 0 });
    assert_eq!(config.secret, Column { kind: ColumnKind::Advice, index: SECRET_ADVICE });
    assert_eq!(config.bounds, Column { kind: ColumnKind::Advice, index: COMPARISON_ADVICE });
    assert_eq!(config.equality.len(), 4);
    assert_eq!(config.ledger.rows, 256);
    assert_eq!(config.ledger.claims.len(), 10);
    assert_eq!(config.ledger.rows_used(), TABLE_ROWS_NEEDED - RESERVED_ROWS);
    assert_eq!(config.ledger.rows_used(), 93);
    assert_eq!(COMPARISON_ROWS, WINDOWS + 1);
    assert!(WINDOWS * WINDOW_BITS >= 64 + 1);
}

#[test]
fn pipeline_runs_in_order() {
    let mut phase = Phase::Unconfigured;
    let mut round = Round::Unassigned;
    assert_eq!(round.apply(phase, RoundEvent::Assign), Err(OrderError::OutOfOrder));
    assert!(phase.advance().is_ok());
    assert!(phase.advance().is_ok());
    assert_eq!(phase, Phase::KeyGenerated);
    assert_eq!(phase.advance(), Err(OrderError::OutOfOrder));
    assert!(round.apply(phase, RoundEvent::Assign).is_ok());
    assert_eq!(round.apply(phase, RoundEvent::Verify(true)), Err(OrderError::OutOfOrder));
    assert!(round.apply(phase, RoundEvent::Prove).is_ok());
    assert!(round.apply(phase, RoundEvent::Verify(false)).is_ok());
    assert_eq!(round, Round::Rejected);
    assert_eq!(round.apply(phase, RoundEvent::Assign), Err(OrderError::OutOfOrder));
    let mut next = Round::Unassigned;
    assert!(next.apply(phase, RoundEvent::Assign).is_ok());
    assert!(next.apply(phase, RoundEvent::Prove).is_ok());
    assert!(next.apply(phase, RoundEvent::Verify(true)).is_ok());
    assert_eq!(next, Round::Accepted);
}
