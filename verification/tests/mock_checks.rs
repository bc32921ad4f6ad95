//! Tests of the satisfiability check, the domains, the registry and the
//! gate compiler, on concrete instances.

use card::card::{create_circuit, empty_circuit, qty_domain, rank_domain, suite_domain, CardCircuit,
    PublicInputs};
use card::check::{run_mock_prover, CheckError, ConstraintFailure, MIN_K};
use card::gate::{compile_gate, Attribute, ConfigurationError, ConstraintKind};
use card::registry::ConstraintSystem;

fn check(k: u32, witness: (u64, u64, u64), publics: (u64, u64, u64)) -> Result<(), CheckError> {
    let circuit = create_circuit(witness.0, witness.1, witness.2);
    let p = PublicInputs { qty: publics.0, suite: publics.1, rank: publics.2 };
    run_mock_prover(k, &circuit, &p)
}

fn failures(r: Result<(), CheckError>) -> Vec<ConstraintFailure> {
    match r {
        Err(CheckError::Unsatisfied(v)) => v,
        other => panic!("expected an unsatisfied instance, got {:?}", other),
    }
}

#[test]
fn test_qty_domain_sweep() {
    for x in 0u64..=5u64 {
        let r = check(4, (x, 2, 3), (x, 2, 3));
        if (1..=4).contains(&x) {
            assert!(r.is_ok(), "quantity {} must satisfy the domain", x);
        } else {
            let v = failures(r);
            assert_eq!(v.len(), 1);
            assert_eq!(v[0].attr, 0);
            assert_eq!(v[0].kind, ConstraintKind::DomainCheck);
            assert_eq!(v[0].row, 0);
            assert_eq!(v[0].constraint_name(), "qty_check");
        }
    }
}

#[test]
fn test_suite_domain_sweep() {
    for x in 0u64..=5u64 {
        let r = check(4, (1, x, 3), (1, x, 3));
        if (1..=4).contains(&x) {
            assert!(r.is_ok(), "suite {} must satisfy the domain", x);
        } else {
            let v = failures(r);
            assert_eq!(v.len(), 1);
            assert_eq!(v[0].attr, 1);
            assert_eq!(v[0].kind, ConstraintKind::DomainCheck);
            assert_eq!(v[0].constraint_name(), "suite_check");
        }
    }
}

#[test]
fn test_rank_domain_boundaries() {
    for x in [0u64, 1, 12, 13] {
        let r = check(4, (1, 2, x), (1, 2, x));
        if (1..=12).contains(&x) {
            assert!(r.is_ok(), "rank {} must satisfy the domain", x);
        } else {
            let v = failures(r);
            assert_eq!(v.len(), 1);
            assert_eq!(v[0].attr, 2);
            assert_eq!(v[0].kind, ConstraintKind::DomainCheck);
            assert_eq!(v[0].constraint_name(), "rank_check");
        }
    }
}

#[test]
fn test_matching_witness_passes() {
    assert!(check(4, (1, 2, 3), (1, 2, 3)).is_ok());
    assert!(check(4, (4, 4, 12), (4, 4, 12)).is_ok());
}

#[test]
fn test_each_coordinate_mismatch_is_named() {
    let cases = [
        ((2u64, 2u64, 3u64), (1u64, 2u64, 3u64), 0usize, "qty_match"),
        ((1, 1, 3), (1, 2, 3), 1, "suite_match"),
        ((1, 2, 3), (1, 2, 4), 2, "rank_match"),
    ];
    for (w, p, attr, name) in cases {
        let v = failures(check(4, w, p));
        assert_eq!(v.len(), 1);
        assert_eq!(v[0].attr, attr);
        assert_eq!(v[0].kind, ConstraintKind::EqualityMatch);
        assert_eq!(v[0].row, 0);
        assert_eq!(v[0].constraint_name(), name);
        assert_eq!(v[0].gate_name(), "card check");
    }
}

#[test]
fn test_scenario_a_mock_check() {
    // quantity 1, suite 2, rank 3, publics (1, 2, 3): the check passes.
    assert!(check(5, (1, 2, 3), (1, 2, 3)).is_ok());
}

#[test]
fn test_scenario_b_qty_out_of_domain() {
    // quantity 5: the check fails, naming the quantity domain constraint.
    let v = failures(check(5, (5, 2, 3), (5, 2, 3)));
    assert!(v.iter().any(|f| f.constraint_name() == "qty_check"));
}

#[test]
fn test_scenario_c_rank_mismatch() {
    // witness (1, 2, 3) against publics (1, 2, 4): the check fails, naming
    // the rank equality constraint.
    let v = failures(check(5, (1, 2, 3), (1, 2, 4)));
    assert_eq!(v.len(), 1);
    assert_eq!(v[0].constraint_name(), "rank_match");
}

#[test]
fn test_not_enough_rows() {
    assert!(MIN_K == 3);
    let r = check(2, (1, 2, 3), (1, 2, 3));
    assert!(matches!(r, Err(CheckError::NotEnoughRows { k: 2 })));
}

#[test]
fn test_unknown_witness_fails_every_constraint() {
    let circuit = empty_circuit();
    let p = PublicInputs { qty: 1, suite: 2, rank: 3 };
    let v = failures(run_mock_prover(4, &circuit, &p));
    assert_eq!(v.len(), 6);
    let names: Vec<&str> = v.iter().map(|f| f.constraint_name()).collect();
    assert_eq!(
        names,
        vec!["qty_check", "suite_check", "rank_check", "qty_match", "suite_match", "rank_match"],
    );
}

#[test]
fn test_multiple_failures_in_constraint_order() {
    // quantity out of domain and mismatched, rank mismatched.
    let v = failures(check(4, (0, 2, 3), (1, 2, 4)));
    let names: Vec<&str> = v.iter().map(|f| f.constraint_name()).collect();
    assert_eq!(names, vec!["qty_check", "qty_match", "rank_match"]);
}

#[test]
fn test_domain_builders() {
    assert_eq!(qty_domain(), vec![1, 2, 3, 4]);
    assert_eq!(suite_domain(), vec![1, 2, 3, 4]);
    assert_eq!(rank_domain(), vec![1, 2, 3, 4, 5, 6, 7, 8, 9, 10, 11, 12]);
}

#[test]
fn test_circuit_builders() {
    let c = create_circuit(3, 3, 11);
    assert_eq!(c.qty, Some(3));
    assert_eq!(c.suite, Some(3));
    assert_eq!(c.rank, Some(11));
    let e = empty_circuit();
    assert_eq!(e.qty, None);
    assert_eq!(e.suite, None);
    assert_eq!(e.rank, None);
    let w = c.without_witnesses();
    assert_eq!(w, CardCircuit::default());
}

#[test]
fn test_registry_returns_stable_handles() {
    let mut reg = ConstraintSystem::new();
    let a0 = reg.advice_column();
    let a1 = reg.advice_column();
    let i0 = reg.instance_column();
    let s0 = reg.selector();
    assert_eq!(a0.index, 0);
    assert_eq!(a1.index, 1);
    assert_eq!(i0.index, 0);
    assert_eq!(s0.index, 0);
    assert!(!reg.has_equality(0));
    reg.enable_equality(i0);
    assert!(reg.has_equality(0));
}

#[test]
fn test_equality_must_be_enabled_at_declaration() {
    // A gate that targets an instance column whose equality flag was never
    // set is a configuration error, raised at setup time.
    let mut reg = ConstraintSystem::new();
    let advice = reg.advice_column();
    let instance = reg.instance_column();
    let selector = reg.selector();
    let attrs = vec![Attribute { advice, instance: Some(instance), domain: qty_domain() }];
    let r = compile_gate(&reg, selector, &attrs);
    assert!(matches!(r, Err(ConfigurationError::EqualityNotEnabled { attr: 0 })));

    reg.enable_equality(instance);
    let r = compile_gate(&reg, selector, &attrs);
    assert!(r.is_ok());
}

#[test]
fn test_empty_domain_is_a_configuration_error() {
    let mut reg = ConstraintSystem::new();
    let advice = reg.advice_column();
    let selector = reg.selector();
    let attrs = vec![Attribute { advice, instance: None, domain: vec![] }];
    let r = compile_gate(&reg, selector, &attrs);
    assert!(matches!(r, Err(ConfigurationError::EmptyDomain { attr: 0 })));
}

#[test]
fn test_compiled_card_gate_structure() {
    let mut reg = ConstraintSystem::new();
    let config = CardCircuit::configure(&mut reg);
    assert_eq!(config.gate.constraints.len(), 6);
    let kinds: Vec<ConstraintKind> = config.gate.constraints.iter().map(|c| c.kind).collect();
    assert_eq!(
        kinds,
        vec![
            ConstraintKind::DomainCheck,
            ConstraintKind::DomainCheck,
            ConstraintKind::DomainCheck,
            ConstraintKind::EqualityMatch,
            ConstraintKind::EqualityMatch,
            ConstraintKind::EqualityMatch,
        ],
    );
    let attrs: Vec<usize> = config.gate.constraints.iter().map(|c| c.attr).collect();
    assert_eq!(attrs, vec![0, 1, 2, 0, 1, 2]);
    assert_eq!(config.gate.selector, config.s_check);
}
