//! End-to-end tests against the real proving backend: the library's
//! compiled gate data is lowered into the backend's expression type, and
//! the full setup, key-generation, proving and verification lifecycle runs
//! on it.

use halo2_proofs::circuit::{Layouter, Region, SimpleFloorPlanner, Value};
use halo2_proofs::dev::MockProver;
use halo2_proofs::pasta::{EqAffine, Fp};
use halo2_proofs::plonk::{
    create_proof, keygen_pk, keygen_vk, Advice, Assigned, Circuit, Column, Constraints, Error,
    Expression, Instance, ProvingKey, Selector, VirtualCells,
};
use halo2_proofs::poly::Rotation;
use halo2_proofs::transcript::{Blake2bWrite, Challenge255};
use rand_core::OsRng;

use card::backend::{create_public_inputs, generate_setup_params, read_setup_params,
    setup_params_k, verify, verifying_key_rows, write_setup_params, CardVerifyingKey,
    SerializationError, SetupParams};
use card::card::{CardCircuit as LibCircuit, CardConfig as LibConfig};
use card::expr::Expr;
use card::gate::{compile_gate, Attribute, Gate};
use card::registry::ConstraintSystem as LibRegistry;

/// Lowers the library's expression data into the backend's expression type.
fn lower_expr(
    e: &Expr,
    vc: &mut VirtualCells<'_, Fp>,
    advice: &[Column<Advice>],
    instance: &[Column<Instance>],
) -> Expression<Fp> {
    match e {
        Expr::Const(c) => Expression::Constant(Fp::from(*c)),
        Expr::Advice(i) => vc.query_advice(advice[*i], Rotation::cur()),
        Expr::Instance(i) => vc.query_instance(instance[*i], Rotation::cur()),
        Expr::Sub(a, b) => {
            lower_expr(a, vc, advice, instance) - lower_expr(b, vc, advice, instance)
        }
        Expr::Mul(a, b) => {
            lower_expr(a, vc, advice, instance) * lower_expr(b, vc, advice, instance)
        }
    }
}

#[derive(Clone)]
struct HostConfig {
    advice: Vec<Column<Advice>>,
    instance: Vec<Column<Instance>>,
    selector: Selector,
    lib: LibConfig,
}

#[derive(Clone, Default)]
struct HostCardCircuit {
    inner: LibCircuit,
}

impl HostCardCircuit {
    fn new(qty: u64, suite: u64, rank: u64) -> Self {
        HostCardCircuit { inner: card::card::create_circuit(qty, suite, rank) }
    }
}

impl Circuit<Fp> for HostCardCircuit {
    type Config = HostConfig;
    type FloorPlanner = SimpleFloorPlanner;

    fn without_witnesses(&self) -> Self {
        Self::default()
    }

    fn configure(meta: &mut halo2_proofs::plonk::ConstraintSystem<Fp>) -> HostConfig {
        let mut reg = LibRegistry::new();
        let lib = LibCircuit::configure(&mut reg);
        let advice = vec![meta.advice_column(), meta.advice_column(), meta.advice_column()];
        let instance =
            vec![meta.instance_column(), meta.instance_column(), meta.instance_column()];
        for col in instance.iter() {
            meta.enable_equality(*col);
        }
        let selector = meta.selector();
        let gate = lib.gate.clone();
        let adv = advice.clone();
        let inst = instance.clone();
        meta.create_gate("card check", move |vc| {
            let s = vc.query_selector(selector);
            let polys: Vec<Expression<Fp>> =
                gate.constraints.iter().map(|c| lower_expr(&c.expr, vc, &adv, &inst)).collect();
            Constraints::with_selector(s, polys)
        });
        HostConfig { advice, instance, selector, lib }
    }

    fn synthesize(
        &self,
        config: HostConfig,
        mut layouter: impl Layouter<Fp>,
    ) -> Result<(), Error> {
        let inner = self.inner;
        layouter.assign_region(
            || "Card",
            |mut region: Region<'_, Fp>| {
                config.selector.enable(&mut region, 0)?;
                let cells = [
                    (config.lib.qty.index, inner.qty),
                    (config.lib.suite.index, inner.suite),
                    (config.lib.rank.index, inner.rank),
                ];
                for (idx, v) in cells.iter() {
                    let value: Value<Assigned<Fp>> = match v {
                        Some(x) => Value::known(Fp::from(*x).into()),
                        None => Value::unknown(),
                    };
                    region.assign_advice(|| "cell", config.advice[*idx], 0, || value)?;
                }
                Ok(())
            },
        )
    }
}

fn instance_vectors(qty: u64, suite: u64, rank: u64) -> Vec<Vec<Fp>> {
    let p = create_public_inputs(qty, suite, rank);
    vec![p.0, p.1, p.2]
}

fn make_keys(params: &SetupParams) -> (ProvingKey<EqAffine>, CardVerifyingKey) {
    let empty = HostCardCircuit::default();
    let vk = keygen_vk(&params.inner, &empty).expect("key generation must succeed");
    let pk = keygen_pk(&params.inner, vk.clone(), &empty).expect("key generation must succeed");
    (pk, CardVerifyingKey { inner: vk })
}

fn make_proof(
    params: &SetupParams,
    pk: &ProvingKey<EqAffine>,
    circuit: HostCardCircuit,
    publics: (u64, u64, u64),
) -> Vec<u8> {
    let p = create_public_inputs(publics.0, publics.1, publics.2);
    let mut transcript = Blake2bWrite::<_, _, Challenge255<_>>::init(vec![]);
    create_proof(
        &params.inner,
        pk,
        &[circuit],
        &[&[&p.0, &p.1, &p.2]],
        OsRng,
        &mut transcript,
    )
    .expect("proof generation must succeed for a satisfying witness");
    transcript.finalize()
}

fn verify_with(params: &SetupParams, vk: &CardVerifyingKey, publics: (u64, u64, u64), proof: Vec<u8>) -> bool {
    let p = create_public_inputs(publics.0, publics.1, publics.2);
    verify(params, vk, (&p.0, &p.1, &p.2), proof)
}

#[test]
fn card_test_range_check_1() {
    let k: u32 = 10;
    let circuit = HostCardCircuit::new(1, 2, 3);
    let prover = MockProver::run(k, &circuit, instance_vectors(1, 2, 3)).unwrap();
    prover.assert_satisfied();
}

#[test]
fn test_backend_rejects_out_of_domain_witness() {
    let circuit = HostCardCircuit::new(5, 2, 3);
    let prover = MockProver::run(4, &circuit, instance_vectors(5, 2, 3)).unwrap();
    assert!(prover.verify().is_err());
}

#[test]
fn test_backend_rejects_mismatched_witness() {
    let circuit = HostCardCircuit::new(1, 2, 3);
    let prover = MockProver::run(4, &circuit, instance_vectors(1, 2, 4)).unwrap();
    assert!(prover.verify().is_err());
}

#[test]
fn test_round_trip_accepts() {
    let params = generate_setup_params(4);
    let (pk, vk) = make_keys(&params);
    for p in [(1u64, 2u64, 3u64), (4, 4, 12), (2, 1, 1)] {
        let circuit = HostCardCircuit::new(p.0, p.1, p.2);
        let proof = make_proof(&params, &pk, circuit, p);
        assert!(verify_with(&params, &vk, p, proof), "round trip must accept {:?}", p);
    }
}

#[test]
fn test_negative_round_trip_rejects() {
    let params = generate_setup_params(4);
    let (pk, vk) = make_keys(&params);
    let circuit = HostCardCircuit::new(1, 2, 3);
    let proof = make_proof(&params, &pk, circuit, (1, 2, 3));
    assert!(verify_with(&params, &vk, (1, 2, 3), proof.clone()));
    assert!(!verify_with(&params, &vk, (1, 2, 4), proof.clone()));
    assert!(!verify_with(&params, &vk, (2, 2, 3), proof));
}

#[test]
fn test_keygen_idempotent() {
    let params = generate_setup_params(4);
    let (pk1, vk1) = make_keys(&params);
    let (_pk2, vk2) = make_keys(&params);
    let circuit = HostCardCircuit::new(3, 3, 11);
    let proof = make_proof(&params, &pk1, circuit, (3, 3, 11));
    assert_eq!(
        verify_with(&params, &vk1, (3, 3, 11), proof.clone()),
        verify_with(&params, &vk2, (3, 3, 11), proof.clone()),
    );
    assert!(verify_with(&params, &vk2, (3, 3, 11), proof.clone()));
    assert_eq!(
        verify_with(&params, &vk1, (3, 3, 12), proof.clone()),
        verify_with(&params, &vk2, (3, 3, 12), proof),
    );
}

#[test]
fn test_mismatched_params_and_key_rejected() {
    // A proof paired with parameters and a key made for different row
    // spaces must be rejected as a normal negative outcome, not a panic.
    let params5 = generate_setup_params(5);
    let (pk5, vk5) = make_keys(&params5);
    let proof = make_proof(&params5, &pk5, HostCardCircuit::new(1, 2, 3), (1, 2, 3));
    assert!(verify_with(&params5, &vk5, (1, 2, 3), proof.clone()));
    let params4 = generate_setup_params(4);
    assert!(!verify_with(&params4, &vk5, (1, 2, 3), proof));
}

#[test]
fn test_k_accessors() {
    let params = generate_setup_params(4);
    assert_eq!(setup_params_k(&params), 4);
    let (_pk, vk) = make_keys(&params);
    assert_eq!(verifying_key_rows(&vk), 16);
}

#[test]
fn test_public_inputs_encoding() {
    // The three instance columns hold the encodings of quantity, suite and
    // rank, in that order.
    let p = create_public_inputs(3, 1, 12);
    assert_eq!(p.0, vec![Fp::from(3u64)]);
    assert_eq!(p.1, vec![Fp::from(1u64)]);
    assert_eq!(p.2, vec![Fp::from(12u64)]);
}

#[test]
fn test_params_byte_round_trip() {
    let params = generate_setup_params(4);
    let bytes = write_setup_params(&params);
    let reread = read_setup_params(&bytes).expect("a written encoding must read back");
    let (pk, _vk) = make_keys(&params);
    let (_pk2, vk2) = make_keys(&reread);
    let proof = make_proof(&params, &pk, HostCardCircuit::new(1, 2, 3), (1, 2, 3));
    assert!(verify_with(&reread, &vk2, (1, 2, 3), proof));
}

#[test]
fn test_malformed_params_are_refused() {
    // Too short to hold the leading k.
    assert!(matches!(read_setup_params(&[1, 2, 3]), Err(SerializationError)));
    // Claims a k the backend refuses.
    assert!(matches!(read_setup_params(&[64, 0, 0, 0]), Err(SerializationError)));
    // A valid k, but the encoding is cut short.
    assert!(matches!(read_setup_params(&[4, 0, 0, 0, 9, 9]), Err(SerializationError)));
}

#[test]
fn test_scenario_a_full_lifecycle() {
    // quantity 1, suite 2, rank 3, publics (1, 2, 3): mock check, proof
    // generation and verification all succeed.
    let lib_circuit = card::card::create_circuit(1, 2, 3);
    let publics = card::card::PublicInputs { qty: 1, suite: 2, rank: 3 };
    assert!(card::check::run_mock_prover(4, &lib_circuit, &publics).is_ok());

    let params = generate_setup_params(4);
    let (pk, vk) = make_keys(&params);
    let proof = make_proof(&params, &pk, HostCardCircuit::new(1, 2, 3), (1, 2, 3));
    assert!(verify_with(&params, &vk, (1, 2, 3), proof));
}

// The single-attribute range-check circuits: one advice column, one
// selector, and the library's domain constraint for one attribute.

#[derive(Clone)]
struct SingleConfig {
    advice: Column<Advice>,
    selector: Selector,
}

fn configure_single(
    meta: &mut halo2_proofs::plonk::ConstraintSystem<Fp>,
    domain: Vec<u64>,
) -> SingleConfig {
    let mut reg = LibRegistry::new();
    let advice_handle = reg.advice_column();
    let selector_handle = reg.selector();
    let attrs = vec![Attribute { advice: advice_handle, instance: None, domain }];
    let gate: Gate = compile_gate(&reg, selector_handle, &attrs).expect("a valid shape");
    let advice = meta.advice_column();
    let selector = meta.selector();
    meta.create_gate("range check", move |vc| {
        let s = vc.query_selector(selector);
        let polys: Vec<Expression<Fp>> =
            gate.constraints.iter().map(|c| lower_expr(&c.expr, vc, &[advice], &[])).collect();
        Constraints::with_selector(s, polys)
    });
    SingleConfig { advice, selector }
}

fn synthesize_single(
    config: SingleConfig,
    mut layouter: impl Layouter<Fp>,
    value: Option<u64>,
) -> Result<(), Error> {
    layouter.assign_region(
        || "attribute",
        |mut region: Region<'_, Fp>| {
            config.selector.enable(&mut region, 0)?;
            let v: Value<Assigned<Fp>> = match value {
                Some(x) => Value::known(Fp::from(x).into()),
                None => Value::unknown(),
            };
            region.assign_advice(|| "value", config.advice, 0, || v)?;
            Ok(())
        },
    )
}

#[derive(Clone, Default)]
struct QtyTestCircuit {
    qty: Option<u64>,
}

impl Circuit<Fp> for QtyTestCircuit {
    type Config = SingleConfig;
    type FloorPlanner = SimpleFloorPlanner;

    fn without_witnesses(&self) -> Self {
        Self::default()
    }

    fn configure(meta: &mut halo2_proofs::plonk::ConstraintSystem<Fp>) -> SingleConfig {
        configure_single(meta, card::card::qty_domain())
    }

    fn synthesize(&self, config: SingleConfig, layouter: impl Layouter<Fp>) -> Result<(), Error> {
        synthesize_single(config, layouter, self.qty)
    }
}

#[derive(Clone, Default)]
struct SuiteTestCircuit {
    suite: Option<u64>,
}

impl Circuit<Fp> for SuiteTestCircuit {
    type Config = SingleConfig;
    type FloorPlanner = SimpleFloorPlanner;

    fn without_witnesses(&self) -> Self {
        Self::default()
    }

    fn configure(meta: &mut halo2_proofs::plonk::ConstraintSystem<Fp>) -> SingleConfig {
        configure_single(meta, card::card::suite_domain())
    }

    fn synthesize(&self, config: SingleConfig, layouter: impl Layouter<Fp>) -> Result<(), Error> {
        synthesize_single(config, layouter, self.suite)
    }
}

#[derive(Clone, Default)]
struct RankTestCircuit {
    rank: Option<u64>,
}

impl Circuit<Fp> for RankTestCircuit {
    type Config = SingleConfig;
    type FloorPlanner = SimpleFloorPlanner;

    fn without_witnesses(&self) -> Self {
        Self::default()
    }

    fn configure(meta: &mut halo2_proofs::plonk::ConstraintSystem<Fp>) -> SingleConfig {
        configure_single(meta, card::card::rank_domain())
    }

    fn synthesize(&self, config: SingleConfig, layouter: impl Layouter<Fp>) -> Result<(), Error> {
        synthesize_single(config, layouter, self.rank)
    }
}

#[test]
fn qty_test_range_check_1() {
    let k: u32 = 3;
    // Zero lies outside the quantity domain {1, 2, 3, 4}, so the backend
    // must find the instance unsatisfied.
    let circuit = QtyTestCircuit { qty: Some(0) };
    let prover = MockProver::run(k, &circuit, vec![]).unwrap();
    assert!(prover.verify().is_err());
    let circuit = QtyTestCircuit { qty: Some(1) };
    let prover = MockProver::run(k, &circuit, vec![]).unwrap();
    prover.assert_satisfied();
}

#[test]
fn suite_test_range_check_1() {
    let k: u32 = 3;
    // Zero lies outside the suite domain {1, 2, 3, 4}.
    let circuit = SuiteTestCircuit { suite: Some(0) };
    let prover = MockProver::run(k, &circuit, vec![]).unwrap();
    assert!(prover.verify().is_err());
    let circuit = SuiteTestCircuit { suite: Some(4) };
    let prover = MockProver::run(k, &circuit, vec![]).unwrap();
    prover.assert_satisfied();
}

#[test]
fn rank_test_range_check_1() {
    let k: u32 = 3;
    let circuit = RankTestCircuit { rank: Some(11) };
    let prover = MockProver::run(k, &circuit, vec![]).unwrap();
    prover.assert_satisfied();
}
