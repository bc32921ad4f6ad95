//! The non-cryptographic satisfiability check: it builds the circuit's
//! shape, binds the concrete instance, and evaluates every constraint that
//! the activated selector guards. Every violated sub-constraint is reported
//! by gate, sub-constraint and row, for pre-flight validation ahead of the
//! expensive proving call.

use vstd::prelude::*;
use crate::card::{
    CardCircuit, PublicInputs, CardConfig, card_config_wf, qty_domain, suite_domain, rank_domain,
    qty_domain_spec, suite_domain_spec, rank_domain_spec, lemma_card_gate_characterizes,
};
use crate::expr::small_value_bound;
use crate::gate::{ConstraintKind, gate_satisfied};
use crate::registry::ConstraintSystem;

verus! {

/// The smallest `k` the row space allows: `2^k` rows must hold the single
/// region row plus the seven rows the proving backend reserves at the
/// bottom of the table for blinding and its own bookkeeping.
pub const MIN_K: u32 = 3;

/// Where and why an instance failed: the sub-constraint, named by the
/// attribute it guards and its kind, and the row at which it was violated.
#[derive(Clone, Copy, Debug, PartialEq, Eq, Structural)]
pub struct ConstraintFailure {
    pub attr: usize,
    pub kind: ConstraintKind,
    pub row: usize,
}

impl ConstraintFailure {
    /// The name of the one gate every card constraint belongs to.
    pub fn gate_name(&self) -> (r: &'static str)
        ensures
            r@ == "card check"@,
    {
        "card check"
    }

    /// The name of the violated sub-constraint.
    pub fn constraint_name(&self) -> (r: &'static str)
        requires
            self.attr < 3,
        ensures
            self.attr == 0 && self.kind is DomainCheck ==> r@ == "qty_check"@,
            self.attr == 1 && self.kind is DomainCheck ==> r@ == "suite_check"@,
            self.attr == 2 && self.kind is DomainCheck ==> r@ == "rank_check"@,
            self.attr == 0 && self.kind is EqualityMatch ==> r@ == "qty_match"@,
            self.attr == 1 && self.kind is EqualityMatch ==> r@ == "suite_match"@,
            self.attr == 2 && self.kind is EqualityMatch ==> r@ == "rank_match"@,
    {
        match self.kind {
            ConstraintKind::DomainCheck => {
                if self.attr == 0 {
                    "qty_check"
                } else if self.attr == 1 {
                    "suite_check"
                } else {
                    "rank_check"
                }
            },
            ConstraintKind::EqualityMatch => {
                if self.attr == 0 {
                    "qty_match"
                } else if self.attr == 1 {
                    "suite_match"
                } else {
                    "rank_match"
                }
            },
        }
    }
}

/// Failure modes of the satisfiability check.
#[derive(Debug, PartialEq, Eq)]
pub enum CheckError {
    /// `2^k` rows cannot hold the circuit's region and the backend's
    /// reserved rows.
    NotEnoughRows { k: u32 },
    /// The instance violates the listed constraints, in constraint order.
    Unsatisfied(Vec<ConstraintFailure>),
}

/// The witness cell of attribute `j` of the instance.
pub open spec fn witness_of(c: CardCircuit, j: int) -> Option<u64> {
    if j == 0 {
        c.qty
    } else if j == 1 {
        c.suite
    } else {
        c.rank
    }
}

/// The public input bound to attribute `j`.
pub open spec fn public_of(p: PublicInputs, j: int) -> u64 {
    if j == 0 {
        p.qty
    } else if j == 1 {
        p.suite
    } else {
        p.rank
    }
}

/// The enumerated domain of attribute `j`.
pub open spec fn attr_domain(j: int) -> Seq<u64> {
    if j == 0 {
        qty_domain_spec()
    } else if j == 1 {
        suite_domain_spec()
    } else {
        rank_domain_spec()
    }
}

/// The domain check of attribute `j` fails when its cell is unknown or its
/// value lies outside the attribute's domain.
pub open spec fn domain_check_fails(c: CardCircuit, j: int) -> bool {
    match witness_of(c, j) {
        Some(v) => !attr_domain(j).contains(v),
        None => true,
    }
}

/// The equality constraint of attribute `j` fails when its cell is unknown
/// or its value differs from the public input.
pub open spec fn match_check_fails(c: CardCircuit, p: PublicInputs, j: int) -> bool {
    match witness_of(c, j) {
        Some(v) => v != public_of(p, j),
        None => true,
    }
}

/// An instance satisfies the card circuit against a public-input triple
/// when the witness is fully assigned, each attribute's value lies in its
/// enumerated domain, and each equals its public counterpart.
pub open spec fn card_satisfied(c: CardCircuit, p: PublicInputs) -> bool {
    &&& c.qty == Some(p.qty)
    &&& c.suite == Some(p.suite)
    &&& c.rank == Some(p.rank)
    &&& qty_domain_spec().contains(p.qty)
    &&& suite_domain_spec().contains(p.suite)
    &&& rank_domain_spec().contains(p.rank)
}

/// The failure list of one constraint: a singleton when it fails, else
/// empty.
pub open spec fn failure_of(fails: bool, attr: int, kind: ConstraintKind) -> Seq<ConstraintFailure> {
    if fails {
        seq![ConstraintFailure { attr: attr as usize, kind, row: 0 }]
    } else {
        Seq::empty()
    }
}

/// The failures the check reports, in constraint order: the
/// three domain checks, then the three equality constraints.
pub open spec fn expected_failures(c: CardCircuit, p: PublicInputs) -> Seq<ConstraintFailure> {
    failure_of(domain_check_fails(c, 0), 0, ConstraintKind::DomainCheck)
        + failure_of(domain_check_fails(c, 1), 1, ConstraintKind::DomainCheck)
        + failure_of(domain_check_fails(c, 2), 2, ConstraintKind::DomainCheck)
        + failure_of(match_check_fails(c, p, 0), 0, ConstraintKind::EqualityMatch)
        + failure_of(match_check_fails(c, p, 1), 1, ConstraintKind::EqualityMatch)
        + failure_of(match_check_fails(c, p, 2), 2, ConstraintKind::EqualityMatch)
}

/// Membership in a concatenation is membership in either part.
proof fn lemma_append_contains<A>(a: Seq<A>, b: Seq<A>, x: A)
    ensures
        (a + b).contains(x) <==> a.contains(x) || b.contains(x),
{
    if (a + b).contains(x) {
        let i = choose|i: int| 0 <= i < (a + b).len() && (a + b)[i] == x;
        if i < a.len() {
            assert(a[i] == x);
        } else {
            assert(b[i - a.len()] == x);
        }
    }
    if a.contains(x) {
        let i = choose|i: int| 0 <= i < a.len() && a[i] == x;
        assert((a + b)[i] == x);
    }
    if b.contains(x) {
        let i = choose|i: int| 0 <= i < b.len() && b[i] == x;
        assert((a + b)[a.len() + i] == x);
    }
}

/// Membership in a one-constraint failure list.
proof fn lemma_singleton_contains(fails: bool, attr: int, kind: ConstraintKind, f: ConstraintFailure)
    ensures
        failure_of(fails, attr, kind).contains(f) <==> (fails && f == ConstraintFailure {
            attr: attr as usize,
            kind,
            row: 0,
        }),
{
    let s = failure_of(fails, attr, kind);
    if fails {
        assert(s[0] == ConstraintFailure { attr: attr as usize, kind, row: 0 });
        if s.contains(f) {
            let i = choose|i: int| 0 <= i < s.len() && s[i] == f;
            assert(i == 0);
        }
    }
}

/// A failure stands in the report exactly when its constraint fails: a
/// domain check at its attribute, or an equality constraint at its
/// attribute, always at row zero.
pub proof fn lemma_failure_reported(c: CardCircuit, p: PublicInputs, f: ConstraintFailure)
    ensures
        expected_failures(c, p).contains(f) <==> {
            &&& f.row == 0
            &&& 0 <= f.attr < 3
            &&& match f.kind {
                ConstraintKind::DomainCheck => domain_check_fails(c, f.attr as int),
                ConstraintKind::EqualityMatch => match_check_fails(c, p, f.attr as int),
            }
        },
{
    let d0 = failure_of(domain_check_fails(c, 0), 0, ConstraintKind::DomainCheck);
    let d1 = failure_of(domain_check_fails(c, 1), 1, ConstraintKind::DomainCheck);
    let d2 = failure_of(domain_check_fails(c, 2), 2, ConstraintKind::DomainCheck);
    let m0 = failure_of(match_check_fails(c, p, 0), 0, ConstraintKind::EqualityMatch);
    let m1 = failure_of(match_check_fails(c, p, 1), 1, ConstraintKind::EqualityMatch);
    let m2 = failure_of(match_check_fails(c, p, 2), 2, ConstraintKind::EqualityMatch);
    lemma_append_contains(d0, d1, f);
    lemma_append_contains(d0 + d1, d2, f);
    lemma_append_contains(d0 + d1 + d2, m0, f);
    lemma_append_contains(d0 + d1 + d2 + m0, m1, f);
    lemma_append_contains(d0 + d1 + d2 + m0 + m1, m2, f);
    lemma_singleton_contains(domain_check_fails(c, 0), 0, ConstraintKind::DomainCheck, f);
    lemma_singleton_contains(domain_check_fails(c, 1), 1, ConstraintKind::DomainCheck, f);
    lemma_singleton_contains(domain_check_fails(c, 2), 2, ConstraintKind::DomainCheck, f);
    lemma_singleton_contains(match_check_fails(c, p, 0), 0, ConstraintKind::EqualityMatch, f);
    lemma_singleton_contains(match_check_fails(c, p, 1), 1, ConstraintKind::EqualityMatch, f);
    lemma_singleton_contains(match_check_fails(c, p, 2), 2, ConstraintKind::EqualityMatch, f);
    assert(expected_failures(c, p) == d0 + d1 + d2 + m0 + m1 + m2);
}

/// The check and the compiled gate's polynomial semantics agree: with the
/// witness triple bound to the region's row, the publics bound to the
/// instance columns, and witness values below `small_value_bound()`, the
/// card gate is satisfied at the active row exactly when the instance
/// satisfies the card circuit.
pub proof fn lemma_check_agrees_with_gate(
    cfg: CardConfig,
    c: CardCircuit,
    p: PublicInputs,
    adv: Seq<int>,
    inst: Seq<int>,
)
    requires
        card_config_wf(cfg),
        cfg.qty.index < adv.len(),
        cfg.suite.index < adv.len(),
        cfg.rank.index < adv.len(),
        cfg.pub_qty.index < inst.len(),
        cfg.pub_suite.index < inst.len(),
        cfg.pub_rank.index < inst.len(),
        c.qty is Some && adv[cfg.qty.index as int] == c.qty->0 as int,
        c.suite is Some && adv[cfg.suite.index as int] == c.suite->0 as int,
        c.rank is Some && adv[cfg.rank.index as int] == c.rank->0 as int,
        inst[cfg.pub_qty.index as int] == p.qty as int,
        inst[cfg.pub_suite.index as int] == p.suite as int,
        inst[cfg.pub_rank.index as int] == p.rank as int,
        c.qty->0 < small_value_bound(),
        c.suite->0 < small_value_bound(),
        c.rank->0 < small_value_bound(),
    ensures
        gate_satisfied(cfg.gate, true, adv, inst) <==> card_satisfied(c, p),
{
    lemma_card_gate_characterizes(cfg, adv, inst, c.qty->0, c.suite->0, c.rank->0, p);
}

/// A mismatch between witness and public input at any coordinate defeats
/// the instance, and is reported as that coordinate's equality constraint.
pub proof fn lemma_mismatch_reported(c: CardCircuit, p: PublicInputs, j: int)
    requires
        0 <= j < 3,
        match_check_fails(c, p, j),
    ensures
        !card_satisfied(c, p),
        expected_failures(c, p).contains(ConstraintFailure {
            attr: j as usize,
            kind: ConstraintKind::EqualityMatch,
            row: 0,
        }),
{
    lemma_failure_reported(c, p, ConstraintFailure {
        attr: j as usize,
        kind: ConstraintKind::EqualityMatch,
        row: 0,
    });
}

/// A witness value outside its attribute's domain defeats the instance, and
/// is reported as that attribute's domain constraint.
pub proof fn lemma_domain_violation_reported(c: CardCircuit, p: PublicInputs, j: int)
    requires
        0 <= j < 3,
        domain_check_fails(c, j),
    ensures
        !card_satisfied(c, p),
        expected_failures(c, p).contains(ConstraintFailure {
            attr: j as usize,
            kind: ConstraintKind::DomainCheck,
            row: 0,
        }),
{
    lemma_failure_reported(c, p, ConstraintFailure {
        attr: j as usize,
        kind: ConstraintKind::DomainCheck,
        row: 0,
    });
}

/// Decides membership of a value in an enumerated domain.
fn domain_contains(domain: &Vec<u64>, v: u64) -> (r: bool)
    ensures
        r == domain@.contains(v),
{
    let mut i: usize = 0;
    while i < domain.len()
        invariant
            0 <= i <= domain@.len(),
            forall|k: int| 0 <= k < i ==> domain@[k] != v,
        decreases domain@.len() - i,
    {
        if domain[i] == v {
            return true;
        }
        i = i + 1;
    }
    false
}

/// Runs the non-cryptographic satisfiability check: builds the circuit's
/// shape, binds the instance to its single region, and evaluates every
/// constraint the activated selector guards against the concrete
/// assignment. Succeeds exactly on satisfied instances; an unsatisfied
/// instance has every violated sub-constraint reported, in constraint
/// order; a `k` too small for the row space is refused outright.
#[verifier::rlimit(60)]
pub fn run_mock_prover(k: u32, circuit: &CardCircuit, public_inputs: &PublicInputs) -> (r: Result<
    (),
    CheckError,
>)
    ensures
        match r {
            Ok(()) => k >= MIN_K && card_satisfied(*circuit, *public_inputs),
            Err(CheckError::NotEnoughRows { k: bad }) => bad == k && k < MIN_K,
            Err(CheckError::Unsatisfied(v)) => {
                &&& k >= MIN_K
                &&& !card_satisfied(*circuit, *public_inputs)
                &&& v@ == expected_failures(*circuit, *public_inputs)
                &&& v@.len() > 0
            },
        },
{
    if k < MIN_K {
        return Err(CheckError::NotEnoughRows { k });
    }

    // Build the shape and bind the instance, as the proving backend's own
    // synthesis would.
    let mut meta = ConstraintSystem::new();
    let config = CardCircuit::configure(&mut meta);
    let qty_col = config.qty;
    let suite_col = config.suite;
    let rank_col = config.rank;
    let region = circuit.synthesize(config, &meta);

    let qty_cell = region.cells[qty_col.index];
    let suite_cell = region.cells[suite_col.index];
    let rank_cell = region.cells[rank_col.index];

    let mut failures: Vec<ConstraintFailure> = Vec::new();

    let qd = qty_domain();
    let sd = suite_domain();
    let rd = rank_domain();

    match qty_cell {
        Some(v) => {
            if !domain_contains(&qd, v) {
                failures.push(ConstraintFailure { attr: 0, kind: ConstraintKind::DomainCheck, row: 0 });
            }
        },
        None => {
            failures.push(ConstraintFailure { attr: 0, kind: ConstraintKind::DomainCheck, row: 0 });
        },
    }
    match suite_cell {
        Some(v) => {
            if !domain_contains(&sd, v) {
                failures.push(ConstraintFailure { attr: 1, kind: ConstraintKind::DomainCheck, row: 0 });
            }
        },
        None => {
            failures.push(ConstraintFailure { attr: 1, kind: ConstraintKind::DomainCheck, row: 0 });
        },
    }
    match rank_cell {
        Some(v) => {
            if !domain_contains(&rd, v) {
                failures.push(ConstraintFailure { attr: 2, kind: ConstraintKind::DomainCheck, row: 0 });
            }
        },
        None => {
            failures.push(ConstraintFailure { attr: 2, kind: ConstraintKind::DomainCheck, row: 0 });
        },
    }
    let qm = match qty_cell {
        Some(v) => v != public_inputs.qty,
        None => true,
    };
    if qm {
        failures.push(ConstraintFailure { attr: 0, kind: ConstraintKind::EqualityMatch, row: 0 });
    }
    let sm = match suite_cell {
        Some(v) => v != public_inputs.suite,
        None => true,
    };
    if sm {
        failures.push(ConstraintFailure { attr: 1, kind: ConstraintKind::EqualityMatch, row: 0 });
    }
    let rm = match rank_cell {
        Some(v) => v != public_inputs.rank,
        None => true,
    };
    if rm {
        failures.push(ConstraintFailure { attr: 2, kind: ConstraintKind::EqualityMatch, row: 0 });
    }

    proof {
        assert(failures@ =~= expected_failures(*circuit, *public_inputs));
    }

    if failures.len() == 0 {
        proof {
            assert(!domain_check_fails(*circuit, 0));
            assert(!domain_check_fails(*circuit, 1));
            assert(!domain_check_fails(*circuit, 2));
            assert(!match_check_fails(*circuit, *public_inputs, 0));
            assert(!match_check_fails(*circuit, *public_inputs, 1));
            assert(!match_check_fails(*circuit, *public_inputs, 2));
        }
        Ok(())
    } else {
        proof {
            if card_satisfied(*circuit, *public_inputs) {
                assert(expected_failures(*circuit, *public_inputs).len() == 0);
            }
        }
        Err(CheckError::Unsatisfied(failures))
    }
}

} // verus!
