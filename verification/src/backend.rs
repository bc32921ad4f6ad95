//! The boundary to the commitment-based proving backend. The backend's
//! types are opaque handles here; the few calls the library makes into it
//! stand behind trusted declarations, each annotated with the backend
//! function it relies on.
//!
//! Key generation and proof generation go through the backend's circuit
//! trait and live with the host code; parameter generation, field-element
//! encoding of the public inputs, and proof verification are reached from
//! here.

use vstd::prelude::*;
use vstd::arithmetic::power2::{pow2, lemma_pow2_unfold, lemma_pow2_strictly_increases};
use halo2_proofs::pasta::{Fp, EqAffine};
use halo2_proofs::poly::commitment::Params;
use halo2_proofs::plonk::VerifyingKey;
use halo2_proofs::transcript::{Blake2bRead, Challenge255};
use halo2_proofs::plonk::SingleVerifier;

verus! {

#[verifier::external_type_specification]
#[verifier::external_body]
pub struct ExFp(Fp);

#[verifier::external_type_specification]
#[verifier::external_body]
pub struct ExEqAffine(EqAffine);

/// Opaque handle to the backend's setup parameters. The backend's parameter
/// type carries a curve bound Verus cannot express, so the value is held in
/// a field Verus does not inspect.
#[verifier::external_body]
pub struct SetupParams {
    pub inner: Params<EqAffine>,
}

/// Opaque handle to the backend's verifying key: a deterministic function
/// of (setup parameters, constraint-system shape), immutable and reusable
/// across proofs.
#[verifier::external_body]
pub struct CardVerifyingKey {
    pub inner: VerifyingKey<EqAffine>,
}

#[verifier::external_type_specification]
#[verifier::external_body]
pub struct ExPlonkError(halo2_proofs::plonk::Error);

/// The `k` a parameter value was generated (or decoded) with: its row space
/// holds `2^k` rows.
pub uninterp spec fn params_k(p: SetupParams) -> nat;

/// The `k` a verifying key was generated with: the `k` of the parameters
/// that key generation was given.
pub uninterp spec fn key_k(vk: CardVerifyingKey) -> nat;

/// The field element `Fp::from` returns for a 64-bit value: a function of
/// the value alone.
pub uninterp spec fn fp_of(v: u64) -> Fp;

/// Whether a byte string is a complete, well-formed parameter encoding:
/// decoding it is a function of the bytes alone.
pub uninterp spec fn params_well_formed(bytes: Seq<u8>) -> bool;

/// The backend's verdict on (parameters, key, instance columns, proof): a
/// function of these values alone — verification is deterministic and reads
/// nothing else.
pub uninterp spec fn backend_accepts(
    params: SetupParams,
    vk: CardVerifyingKey,
    pub_qty: Seq<Fp>,
    pub_suite: Seq<Fp>,
    pub_rank: Seq<Fp>,
    proof: Seq<u8>,
) -> bool;

/// Malformed parameter bytes on read: fatal for that read, no retry.
#[derive(Clone, Copy, Debug, PartialEq, Eq, Structural)]
pub struct SerializationError;

/// Relies on `Fp::from`: the 64-bit value becomes the field element
/// representing it, a function of the value alone.
#[verifier::external_body]
fn fp_from(v: u64) -> (r: Fp)
    ensures
        r == fp_of(v),
{
    Fp::from(v)
}

/// Generates the backend's setup parameters for a row space of `2^k` rows.
/// Relies on `Params::new`, which records `k`, accepts any `k` below 32,
/// and refuses larger ones outright.
#[verifier::external_body]
pub fn generate_setup_params(k: u32) -> (r: SetupParams)
    requires
        k < 32,
    ensures
        params_k(r) == k,
{
    SetupParams { inner: Params::<EqAffine>::new(k) }
}

/// Relies on `Params::k`: reads the `k` a parameter value carries.
#[verifier::external_body]
pub fn setup_params_k(p: &SetupParams) -> (r: u32)
    ensures
        r == params_k(*p),
{
    p.inner.k()
}

/// Relies on `VerifyingKey::get_domain`, `EvaluationDomain::empty_lagrange`
/// and `Polynomial::num_coeffs`: together they read the row count `2^k` of
/// the domain the key was generated over.
#[verifier::external_body]
pub fn verifying_key_rows(vk: &CardVerifyingKey) -> (r: usize)
    ensures
        r == pow2(key_k(*vk)),
{
    vk.inner.get_domain().empty_lagrange().num_coeffs()
}

/// Encodes setup parameters as bytes: the recorded `k`, little-endian,
/// then the commitment points. Relies on `Params::write`, whose only
/// failure mode is the sink's, and a growable byte buffer cannot fail; the
/// encoding is exactly what `Params::read` accepts.
#[verifier::external_body]
pub fn write_setup_params(params: &SetupParams) -> (r: Vec<u8>)
    ensures
        r@.len() >= 4,
        claimed_k(r@) == params_k(*params),
        params_well_formed(r@),
{
    let mut buf = vec![];
    params.inner.write(&mut buf).expect("a byte buffer accepts any write");
    buf
}

/// The little-endian 32-bit value that opens a parameter encoding: the `k`
/// it claims.
pub open spec fn claimed_k(b: Seq<u8>) -> int {
    b[0] as int + 0x100 * (b[1] as int) + 0x10000 * (b[2] as int) + 0x1000000 * (b[3] as int)
}

/// Relies on `Params::read`: decodes parameters from their byte encoding —
/// a deterministic function of the bytes — refusing a truncated or corrupt
/// one with an error value, and recording the leading `k`. That `k` must be
/// one the backend accepts: on a larger one the backend's row count
/// overflows instead of failing cleanly, so such bytes are kept out here.
#[verifier::external_body]
fn params_read(bytes: &[u8]) -> (r: Result<SetupParams, SerializationError>)
    requires
        bytes@.len() >= 4,
        claimed_k(bytes@) < 32,
    ensures
        r is Ok <==> params_well_formed(bytes@),
        r matches Ok(p) ==> params_k(p) == claimed_k(bytes@),
{
    match Params::<EqAffine>::read(&mut std::io::BufReader::new(bytes)) {
        Ok(inner) => Ok(SetupParams { inner }),
        Err(_) => Err(SerializationError),
    }
}

/// Decodes setup parameters from their byte encoding. Succeeds exactly on
/// well-formed encodings whose leading `k` the backend accepts: bytes too
/// short to hold the leading `k`, a claimed `k` of 32 or more, or an
/// encoding cut short or corrupt are all malformed.
pub fn read_setup_params(bytes: &[u8]) -> (r: Result<SetupParams, SerializationError>)
    ensures
        r is Ok <==> bytes@.len() >= 4 && claimed_k(bytes@) < 32 && params_well_formed(bytes@),
        r matches Ok(p) ==> params_k(p) == claimed_k(bytes@),
{
    if bytes.len() < 4 {
        return Err(SerializationError);
    }
    let k: u32 = bytes[0] as u32 + 0x100 * (bytes[1] as u32) + 0x10000 * (bytes[2] as u32)
        + 0x1000000 * (bytes[3] as u32);
    if k >= 32 {
        return Err(SerializationError);
    }
    params_read(bytes)
}

/// Formats the public inputs (quantity, suite, rank) as the backend's
/// instance columns: three columns of one field element each, holding the
/// encodings of quantity, suite and rank in that fixed declared order.
pub fn create_public_inputs(qty: u64, suite: u64, rank: u64) -> (r: (Vec<Fp>, Vec<Fp>, Vec<Fp>))
    ensures
        r.0@ == seq![fp_of(qty)],
        r.1@ == seq![fp_of(suite)],
        r.2@ == seq![fp_of(rank)],
{
    let mut pub_qty: Vec<Fp> = Vec::new();
    pub_qty.push(fp_from(qty));
    let mut pub_suite: Vec<Fp> = Vec::new();
    pub_suite.push(fp_from(suite));
    let mut pub_rank: Vec<Fp> = Vec::new();
    pub_rank.push(fp_from(rank));
    proof {
        assert(pub_qty@ =~= seq![fp_of(qty)]);
        assert(pub_suite@ =~= seq![fp_of(suite)]);
        assert(pub_rank@ =~= seq![fp_of(rank)]);
    }
    (pub_qty, pub_suite, pub_rank)
}

/// Relies on `verify_proof`, run with a `SingleVerifier` strategy over a
/// `Blake2bRead` transcript of the proof bytes. Verification is
/// deterministic: the verdict is a function of the arguments alone. The
/// parameters and the key must carry the same `k`: the backend asserts that
/// the instance vectors match the key's domain size, and its row arithmetic
/// assumes the parameters it was generated from — a verifying key exists
/// only through key generation, which refuses a row space smaller than the
/// rows it reserves, so a matched pair keeps every step in range.
#[verifier::external_body]
fn verify_proof_call(
    params: &SetupParams,
    vk: &CardVerifyingKey,
    pub_qty: &Vec<Fp>,
    pub_suite: &Vec<Fp>,
    pub_rank: &Vec<Fp>,
    proof: &Vec<u8>,
) -> (r: Result<(), halo2_proofs::plonk::Error>)
    requires
        params_k(*params) == key_k(*vk),
        params_k(*params) < 32,
    ensures
        r is Ok <==> backend_accepts(*params, *vk, pub_qty@, pub_suite@, pub_rank@, proof@),
{
    let strategy = SingleVerifier::new(&params.inner);
    let mut transcript = Blake2bRead::<_, _, Challenge255<_>>::init(&proof[..]);
    halo2_proofs::plonk::verify_proof(
        &params.inner,
        &vk.inner,
        strategy,
        &[&[&pub_qty[..], &pub_suite[..], &pub_rank[..]]],
        &mut transcript,
    )
}

/// The row count `2^k`, computed by doubling.
fn pow2_rows(k: u32) -> (r: usize)
    requires
        k < 32,
    ensures
        r == pow2(k as nat),
{
    let mut rows: usize = 1;
    let mut i: u32 = 0;
    proof {
        vstd::arithmetic::power2::lemma2_to64();
    }
    while i < k
        invariant
            i <= k,
            k < 32,
            rows == pow2(i as nat),
        decreases k - i,
    {
        proof {
            vstd::arithmetic::power2::lemma2_to64();
            lemma_pow2_strictly_increases(i as nat, 31);
            lemma_pow2_unfold((i + 1) as nat);
        }
        rows = rows * 2;
        i = i + 1;
    }
    rows
}

/// Verifies a proof against the verifying key and the public-input triple.
/// Pure, side-effect free and deterministic: the verdict depends on the
/// values of (parameters, key, public inputs, proof) alone, and the witness
/// never appears. A proof that does not validate — or a pairing of
/// parameters and key that were not generated for the same row space — is a
/// normal negative outcome, never a panic.
pub fn verify(
    params: &SetupParams,
    vk: &CardVerifyingKey,
    public_inputs: (&Vec<Fp>, &Vec<Fp>, &Vec<Fp>),
    proof: Vec<u8>,
) -> (r: bool)
    ensures
        params_k(*params) == key_k(*vk) && params_k(*params) < 32 ==> r == backend_accepts(
            *params,
            *vk,
            public_inputs.0@,
            public_inputs.1@,
            public_inputs.2@,
            proof@,
        ),
        params_k(*params) != key_k(*vk) || params_k(*params) >= 32 ==> r == false,
{
    let pk = setup_params_k(params);
    if pk >= 32 {
        return false;
    }
    let rows = pow2_rows(pk);
    let krows = verifying_key_rows(vk);
    if rows != krows {
        proof {
            if params_k(*params) < key_k(*vk) {
                lemma_pow2_strictly_increases(params_k(*params), key_k(*vk));
            }
            if key_k(*vk) < params_k(*params) {
                lemma_pow2_strictly_increases(key_k(*vk), params_k(*params));
            }
        }
        return false;
    }
    proof {
        if params_k(*params) < key_k(*vk) {
            lemma_pow2_strictly_increases(params_k(*params), key_k(*vk));
        }
        if key_k(*vk) < params_k(*params) {
            lemma_pow2_strictly_increases(key_k(*vk), params_k(*params));
        }
    }
    let r = verify_proof_call(params, vk, public_inputs.0, public_inputs.1, public_inputs.2, &proof);
    match r {
        Ok(()) => true,
        Err(_) => false,
    }
}

} // verus!
