//! The card circuit: three private attributes (quantity, suite, rank), each
//! constrained to an enumerated domain and bound by an equality constraint
//! to a public-instance column, all guarded by one shared selector.
//!
//! | a0  |  a1   |  a2  | selector |
//! |-----|-------|------|----------|
//! | qty | suite | rank | s_check  |

use vstd::prelude::*;
use crate::expr::{
    CellRef, Expr, domain_expr_spec, small_value_bound, lemma_domain_expr_eval,
    lemma_domain_product_zero_iff,
};
use crate::field::{fsub, lemma_fsub_zero_iff_eq};
use crate::gate::{
    Attribute, Constraint, ConstraintKind, Gate, attr_error, compile_gate, gate_constraints,
    gate_satisfied, constraint_satisfied, match_constraints,
};
use crate::registry::{AdviceColumn, InstanceColumn, Selector, ConstraintSystem};

verus! {

/// The consecutive domain `{1, ..., n}` as an ordered value list.
pub open spec fn range_domain(n: nat) -> Seq<u64> {
    Seq::new(n, |j: int| (j + 1) as u64)
}

/// The valid quantities of a card: one to four of a kind.
pub open spec fn qty_domain_spec() -> Seq<u64> {
    range_domain(4)
}

/// The valid suites of a card: hearts, spades, diamonds, flowers.
pub open spec fn suite_domain_spec() -> Seq<u64> {
    range_domain(4)
}

/// The valid ranks of a card, ace through queen: twelve values.
pub open spec fn rank_domain_spec() -> Seq<u64> {
    range_domain(12)
}

/// A consecutive domain holds exactly the values from one through its size.
pub proof fn lemma_range_domain_contains(n: nat, v: u64)
    requires
        n <= 0xFFFF,
    ensures
        range_domain(n).contains(v) <==> 1 <= v <= n,
{
    if 1 <= v && v <= n {
        assert(range_domain(n)[v as int - 1] == v);
    }
    if range_domain(n).contains(v) {
        let j = choose|j: int| 0 <= j < n && range_domain(n)[j] == v;
    }
}

/// Builds the consecutive domain `{1, ..., n}`.
pub fn build_range_domain(n: usize) -> (r: Vec<u64>)
    requires
        n <= 0xFFFF,
    ensures
        r@ == range_domain(n as nat),
{
    let mut r: Vec<u64> = Vec::new();
    let mut i: usize = 0;
    while i < n
        invariant
            0 <= i <= n,
            n <= 0xFFFF,
            r@.len() == i,
            forall|k: int| 0 <= k < i ==> r@[k] == (k + 1) as u64,
        decreases n - i,
    {
        r.push((i + 1) as u64);
        i = i + 1;
    }
    proof {
        assert(r@ =~= range_domain(n as nat));
    }
    r
}

/// Builds the quantity domain.
pub fn qty_domain() -> (r: Vec<u64>)
    ensures
        r@ == qty_domain_spec(),
{
    build_range_domain(4)
}

/// Builds the suite domain.
pub fn suite_domain() -> (r: Vec<u64>)
    ensures
        r@ == suite_domain_spec(),
{
    build_range_domain(4)
}

/// Builds the rank domain.
pub fn rank_domain() -> (r: Vec<u64>)
    ensures
        r@ == rank_domain_spec(),
{
    build_range_domain(12)
}

/// Configuration of the card circuit: the handles of its columns and
/// selector, and the compiled gate.
#[derive(Clone, Debug)]
pub struct CardConfig {
    pub qty: AdviceColumn,
    pub suite: AdviceColumn,
    pub rank: AdviceColumn,
    pub pub_qty: InstanceColumn,
    pub pub_suite: InstanceColumn,
    pub pub_rank: InstanceColumn,
    pub s_check: Selector,
    pub gate: Gate,
}

/// The constraints of the compiled card gate: one domain check per
/// attribute, then one equality constraint per attribute, in declaration
/// order.
pub open spec fn card_gate_constraints(
    qty: AdviceColumn,
    suite: AdviceColumn,
    rank: AdviceColumn,
    pub_qty: InstanceColumn,
    pub_suite: InstanceColumn,
    pub_rank: InstanceColumn,
) -> Seq<Constraint> {
    seq![
        Constraint {
            attr: 0,
            kind: ConstraintKind::DomainCheck,
            expr: domain_expr_spec(CellRef::Advice(qty.index), qty_domain_spec()),
        },
        Constraint {
            attr: 1,
            kind: ConstraintKind::DomainCheck,
            expr: domain_expr_spec(CellRef::Advice(suite.index), suite_domain_spec()),
        },
        Constraint {
            attr: 2,
            kind: ConstraintKind::DomainCheck,
            expr: domain_expr_spec(CellRef::Advice(rank.index), rank_domain_spec()),
        },
        Constraint {
            attr: 0,
            kind: ConstraintKind::EqualityMatch,
            expr: Expr::Sub(
                Box::new(Expr::Advice(qty.index)),
                Box::new(Expr::Instance(pub_qty.index)),
            ),
        },
        Constraint {
            attr: 1,
            kind: ConstraintKind::EqualityMatch,
            expr: Expr::Sub(
                Box::new(Expr::Advice(suite.index)),
                Box::new(Expr::Instance(pub_suite.index)),
            ),
        },
        Constraint {
            attr: 2,
            kind: ConstraintKind::EqualityMatch,
            expr: Expr::Sub(
                Box::new(Expr::Advice(rank.index)),
                Box::new(Expr::Instance(pub_rank.index)),
            ),
        },
    ]
}

/// Whether a card configuration has the compiled card-gate shape.
pub open spec fn card_config_wf(cfg: CardConfig) -> bool {
    &&& cfg.gate.constraints@ == card_gate_constraints(
        cfg.qty,
        cfg.suite,
        cfg.rank,
        cfg.pub_qty,
        cfg.pub_suite,
        cfg.pub_rank,
    )
    &&& cfg.gate.selector == cfg.s_check
    &&& cfg.qty.index != cfg.suite.index
    &&& cfg.qty.index != cfg.rank.index
    &&& cfg.suite.index != cfg.rank.index
}

/// The chip that owns the card configuration.
pub struct CardChip {
    pub config: CardConfig,
}

impl CardChip {
    /// Wraps a configuration in a chip.
    pub fn construct(config: CardConfig) -> (r: Self)
        ensures
            r.config == config,
    {
        CardChip { config }
    }

    /// Enables equality on the three public columns, then compiles the card
    /// gate: three domain constraints and three equality constraints, all
    /// guarded by `s_check`.
    pub fn configure(
        meta: &mut ConstraintSystem,
        qty: AdviceColumn,
        suite: AdviceColumn,
        rank: AdviceColumn,
        pub_qty: InstanceColumn,
        pub_suite: InstanceColumn,
        pub_rank: InstanceColumn,
        s_check: Selector,
    ) -> (r: CardConfig)
        requires
            qty.index < old(meta).advice_count(),
            suite.index < old(meta).advice_count(),
            rank.index < old(meta).advice_count(),
            pub_qty.index < old(meta).instance_count(),
            pub_suite.index < old(meta).instance_count(),
            pub_rank.index < old(meta).instance_count(),
            qty.index != suite.index,
            qty.index != rank.index,
            suite.index != rank.index,
        ensures
            r.qty == qty,
            r.suite == suite,
            r.rank == rank,
            r.pub_qty == pub_qty,
            r.pub_suite == pub_suite,
            r.pub_rank == pub_rank,
            r.s_check == s_check,
            card_config_wf(r),
            final(meta).advice_count() == old(meta).advice_count(),
            final(meta).instance_count() == old(meta).instance_count(),
            final(meta).selector_count() == old(meta).selector_count(),
            final(meta).equality_enabled(pub_qty.index as int),
            final(meta).equality_enabled(pub_suite.index as int),
            final(meta).equality_enabled(pub_rank.index as int),
    {
        meta.enable_equality(pub_qty);
        meta.enable_equality(pub_suite);
        meta.enable_equality(pub_rank);

        let mut attrs: Vec<Attribute> = Vec::new();
        attrs.push(Attribute { advice: qty, instance: Some(pub_qty), domain: qty_domain() });
        attrs.push(Attribute { advice: suite, instance: Some(pub_suite), domain: suite_domain() });
        attrs.push(Attribute { advice: rank, instance: Some(pub_rank), domain: rank_domain() });

        let gate = match compile_gate(meta, s_check, &attrs) {
            Ok(g) => g,
            Err(_) => {
                proof {
                    assert(forall|j: int| 0 <= j < attrs@.len()
                        ==> attr_error(*meta, #[trigger] attrs@[j], j) is None);
                }
                vstd::pervasive::unreached()
            },
        };
        proof {
            lemma_card_gate_shape(attrs@, *meta, qty, suite, rank, pub_qty, pub_suite, pub_rank);
        }
        CardConfig { qty, suite, rank, pub_qty, pub_suite, pub_rank, s_check, gate }
    }
}

/// The constraint list compiled from the card's three attributes is exactly
/// the card gate's constraint list.
proof fn lemma_card_gate_shape(
    attrs: Seq<Attribute>,
    cs: ConstraintSystem,
    qty: AdviceColumn,
    suite: AdviceColumn,
    rank: AdviceColumn,
    pub_qty: InstanceColumn,
    pub_suite: InstanceColumn,
    pub_rank: InstanceColumn,
)
    requires
        attrs.len() == 3,
        attrs[0].advice == qty && attrs[0].instance == Some(pub_qty)
            && attrs[0].domain@ == qty_domain_spec(),
        attrs[1].advice == suite && attrs[1].instance == Some(pub_suite)
            && attrs[1].domain@ == suite_domain_spec(),
        attrs[2].advice == rank && attrs[2].instance == Some(pub_rank)
            && attrs[2].domain@ == rank_domain_spec(),
    ensures
        gate_constraints(attrs) == card_gate_constraints(qty, suite, rank, pub_qty, pub_suite, pub_rank),
{
    assert(match_constraints(attrs, 0) =~= Seq::<Constraint>::empty());
    assert(match_constraints(attrs, 1) =~= match_constraints(attrs, 0) + seq![
        crate::gate::match_constraint(attrs, 0),
    ]);
    assert(match_constraints(attrs, 2) =~= match_constraints(attrs, 1) + seq![
        crate::gate::match_constraint(attrs, 1),
    ]);
    assert(match_constraints(attrs, 3) =~= match_constraints(attrs, 2) + seq![
        crate::gate::match_constraint(attrs, 2),
    ]);
    assert(gate_constraints(attrs) =~= card_gate_constraints(
        qty,
        suite,
        rank,
        pub_qty,
        pub_suite,
        pub_rank,
    ));
}

/// Membership of an integer in the consecutive integer domain `{1, ..., n}`.
proof fn lemma_int_range_contains(n: nat, x: int)
    requires
        n <= 0xFFFF,
    ensures
        Seq::new(n, |j: int| j + 1).contains(x) <==> 1 <= x <= n,
{
    let s = Seq::new(n, |j: int| j + 1);
    if 1 <= x <= n {
        assert(s[x - 1] == x);
    }
    if s.contains(x) {
        let j = choose|j: int| 0 <= j < n && s[j] == x;
    }
}

/// A domain constraint over the consecutive domain `{1, ..., n}` vanishes
/// exactly when the queried cell's value lies in the domain. Over every
/// field value this equivalence is the mathematical intent; what is proven
/// is the equivalence for values below `small_value_bound()`, the reach of
/// the integer-product technique (see `lemma_domain_product_zero_iff`). A
/// value in the domain is always below the bound, so the vanishing half
/// holds outright.
pub proof fn lemma_domain_constraint_zero_iff(idx: usize, n: nat, v: u64, adv: Seq<int>, inst: Seq<int>)
    requires
        idx < adv.len(),
        adv[idx as int] == v as int,
        v < small_value_bound(),
        1 <= n <= 12,
    ensures
        constraint_satisfied(
            Constraint {
                attr: 0,
                kind: ConstraintKind::DomainCheck,
                expr: domain_expr_spec(CellRef::Advice(idx), range_domain(n)),
            },
            adv,
            inst,
        ) <==> range_domain(n).contains(v),
{
    lemma_domain_expr_eval(CellRef::Advice(idx), range_domain(n), adv, inst);
    let x = crate::expr::cell_expr(CellRef::Advice(idx)).eval(adv, inst);
    assert(x == v as int);
    let ivs = range_domain(n).map_values(|u: u64| u as int);
    assert(ivs =~= Seq::new(n, |j: int| j + 1));
    assert(forall|j: int| 0 <= j < ivs.len() ==> 0 <= #[trigger] ivs[j] <= 15);
    lemma_domain_product_zero_iff(v as int, ivs);
    lemma_int_range_contains(n, v as int);
    lemma_range_domain_contains(n, v);
}

/// An equality constraint between an advice cell and an instance cell
/// vanishes exactly when the two values are equal.
proof fn lemma_match_constraint_zero_iff(
    aidx: usize,
    iidx: usize,
    v: u64,
    pv: u64,
    adv: Seq<int>,
    inst: Seq<int>,
)
    requires
        aidx < adv.len(),
        iidx < inst.len(),
        adv[aidx as int] == v as int,
        inst[iidx as int] == pv as int,
    ensures
        Expr::Sub(Box::new(Expr::Advice(aidx)), Box::new(Expr::Instance(iidx))).eval(adv, inst)
            == 0 <==> v == pv,
{
    let e = Expr::Sub(Box::new(Expr::Advice(aidx)), Box::new(Expr::Instance(iidx)));
    assert(e matches Expr::Sub(a, b));
    assert(e.eval(adv, inst) == fsub(
        Expr::Advice(aidx).eval(adv, inst),
        Expr::Instance(iidx).eval(adv, inst),
    ));
    crate::field::lemma_u64_is_elem(v);
    crate::field::lemma_u64_is_elem(pv);
    lemma_fsub_zeroiff_helper(v as int, pv as int);
}

/// Names the field lemma under its premises.
proof fn lemma_fsub_zeroiff_helper(a: int, b: int)
    requires
        crate::field::is_elem(a),
        crate::field::is_elem(b),
    ensures
        fsub(a, b) == 0 <==> a == b,
{
    lemma_fsub_zero_iff_eq(a, b);
}

/// At an active row, the compiled card gate is satisfied exactly when each
/// attribute value lies in its enumerated domain and equals its public
/// counterpart. Stated for attribute and public values below
/// `small_value_bound()`, where the vanishing products stay below the
/// field's order.
pub proof fn lemma_card_gate_characterizes(
    cfg: CardConfig,
    adv: Seq<int>,
    inst: Seq<int>,
    q: u64,
    s: u64,
    rk: u64,
    p: PublicInputs,
)
    requires
        card_config_wf(cfg),
        cfg.qty.index < adv.len(),
        cfg.suite.index < adv.len(),
        cfg.rank.index < adv.len(),
        cfg.pub_qty.index < inst.len(),
        cfg.pub_suite.index < inst.len(),
        cfg.pub_rank.index < inst.len(),
        adv[cfg.qty.index as int] == q as int,
        adv[cfg.suite.index as int] == s as int,
        adv[cfg.rank.index as int] == rk as int,
        inst[cfg.pub_qty.index as int] == p.qty as int,
        inst[cfg.pub_suite.index as int] == p.suite as int,
        inst[cfg.pub_rank.index as int] == p.rank as int,
        q < small_value_bound(),
        s < small_value_bound(),
        rk < small_value_bound(),
    ensures
        gate_satisfied(cfg.gate, true, adv, inst) <==> {
            &&& qty_domain_spec().contains(q)
            &&& suite_domain_spec().contains(s)
            &&& rank_domain_spec().contains(rk)
            &&& q == p.qty
            &&& s == p.suite
            &&& rk == p.rank
        },
{
    let cons = cfg.gate.constraints@;
    assert(cons.len() == 6);
    lemma_domain_constraint_zero_iff(cfg.qty.index, 4, q, adv, inst);
    lemma_domain_constraint_zero_iff(cfg.suite.index, 4, s, adv, inst);
    lemma_domain_constraint_zero_iff(cfg.rank.index, 12, rk, adv, inst);
    lemma_match_constraint_zero_iff(cfg.qty.index, cfg.pub_qty.index, q, p.qty, adv, inst);
    lemma_match_constraint_zero_iff(cfg.suite.index, cfg.pub_suite.index, s, p.suite, adv, inst);
    lemma_match_constraint_zero_iff(cfg.rank.index, cfg.pub_rank.index, rk, p.rank, adv, inst);
    assert(constraint_satisfied(cons[0], adv, inst) <==> qty_domain_spec().contains(q));
    assert(constraint_satisfied(cons[1], adv, inst) <==> suite_domain_spec().contains(s));
    assert(constraint_satisfied(cons[2], adv, inst) <==> rank_domain_spec().contains(rk));
    assert(constraint_satisfied(cons[3], adv, inst) <==> q == p.qty);
    assert(constraint_satisfied(cons[4], adv, inst) <==> s == p.suite);
    assert(constraint_satisfied(cons[5], adv, inst) <==> rk == p.rank);
    if gate_satisfied(cfg.gate, true, adv, inst) {
        assert(constraint_satisfied(cons[0], adv, inst));
        assert(constraint_satisfied(cons[1], adv, inst));
        assert(constraint_satisfied(cons[2], adv, inst));
        assert(constraint_satisfied(cons[3], adv, inst));
        assert(constraint_satisfied(cons[4], adv, inst));
        assert(constraint_satisfied(cons[5], adv, inst));
    }
    if {
        &&& qty_domain_spec().contains(q)
        &&& suite_domain_spec().contains(s)
        &&& rank_domain_spec().contains(rk)
        &&& q == p.qty
        &&& s == p.suite
        &&& rk == p.rank
    } {
        assert forall|j: int| 0 <= j < cons.len() implies constraint_satisfied(
            #[trigger] cons[j],
            adv,
            inst,
        ) by {
            if j == 0 {
            } else if j == 1 {
            } else if j == 2 {
            } else if j == 3 {
            } else if j == 4 {
            } else {
                assert(j == 5);
            }
        }
    }
}

/// A circuit instance: the prover's private witness triple. A `None` is the
/// "unknown" placeholder used when only the circuit's shape is probed, as
/// during key generation.
#[derive(Clone, Copy, Debug, PartialEq, Eq, Default)]
pub struct CardCircuit {
    pub qty: Option<u64>,
    pub suite: Option<u64>,
    pub rank: Option<u64>,
}

/// The public input triple, in its fixed order (quantity, suite, rank).
#[derive(Clone, Copy, Debug, PartialEq, Eq, Structural)]
pub struct PublicInputs {
    pub qty: u64,
    pub suite: u64,
    pub rank: u64,
}

/// Creates the circuit instance holding a concrete witness triple.
pub fn create_circuit(qty: u64, suite: u64, rank: u64) -> (r: CardCircuit)
    ensures
        r.qty == Some(qty),
        r.suite == Some(suite),
        r.rank == Some(rank),
{
    CardCircuit { qty: Some(qty), suite: Some(suite), rank: Some(rank) }
}

/// Creates the shape-only circuit instance with every witness cell unknown;
/// key generation depends only on the shape, so this is what it is given.
pub fn empty_circuit() -> (r: CardCircuit)
    ensures
        r.qty is None,
        r.suite is None,
        r.rank is None,
{
    CardCircuit { qty: None, suite: None, rank: None }
}

/// One region of the circuit: a single row. It records whether its gate's
/// selector was activated at the row and the value assigned to each advice
/// column there.
pub struct Region {
    pub selector_enabled: bool,
    pub cells: Vec<Option<u64>>,
}

impl Region {
    /// A fresh single-row region with one unassigned cell per advice column
    /// and the selector off.
    pub fn new(num_advice: usize) -> (r: Self)
        ensures
            !r.selector_enabled,
            r.cells@.len() == num_advice,
            forall|i: int| 0 <= i < num_advice ==> r.cells@[i] is None,
    {
        let mut cells: Vec<Option<u64>> = Vec::new();
        let mut i: usize = 0;
        while i < num_advice
            invariant
                0 <= i <= num_advice,
                cells@.len() == i,
                forall|k: int| 0 <= k < i ==> cells@[k] is None,
            decreases num_advice - i,
        {
            cells.push(None);
            i = i + 1;
        }
        Region { selector_enabled: false, cells }
    }

    /// Activates a selector at the region's row.
    pub fn enable_selector(&mut self, _s: Selector)
        ensures
            final(self).selector_enabled,
            final(self).cells == old(self).cells,
    {
        self.selector_enabled = true;
    }

    /// Assigns a value to one advice cell of the row.
    pub fn assign_advice(&mut self, col: AdviceColumn, value: Option<u64>)
        requires
            col.index < old(self).cells@.len(),
        ensures
            final(self).selector_enabled == old(self).selector_enabled,
            final(self).cells@ == old(self).cells@.update(col.index as int, value),
    {
        self.cells.set(col.index, value);
    }
}

impl CardChip {
    /// Binds one instance: activates the selector at the region's base row,
    /// then assigns the witness triple to the three private columns. The
    /// public-input values are not written here — they are supplied
    /// independently to the checking, proving and verification calls.
    pub fn assign(
        &self,
        region: &mut Region,
        qty: Option<u64>,
        suite: Option<u64>,
        rank: Option<u64>,
    )
        requires
            card_config_wf(self.config),
            self.config.qty.index < old(region).cells@.len(),
            self.config.suite.index < old(region).cells@.len(),
            self.config.rank.index < old(region).cells@.len(),
        ensures
            final(region).selector_enabled,
            final(region).cells@.len() == old(region).cells@.len(),
            final(region).cells@[self.config.qty.index as int] == qty,
            final(region).cells@[self.config.suite.index as int] == suite,
            final(region).cells@[self.config.rank.index as int] == rank,
            forall|i: int| 0 <= i < old(region).cells@.len()
                && i != self.config.qty.index
                && i != self.config.suite.index
                && i != self.config.rank.index
                ==> final(region).cells@[i] == old(region).cells@[i],
    {
        region.enable_selector(self.config.s_check);
        region.assign_advice(self.config.qty, qty);
        region.assign_advice(self.config.suite, suite);
        region.assign_advice(self.config.rank, rank);
    }
}

impl CardCircuit {
    /// A shape-only copy of this instance, with every witness cell unknown.
    pub fn without_witnesses(&self) -> (r: Self)
        ensures
            r.qty is None,
            r.suite is None,
            r.rank is None,
    {
        CardCircuit { qty: None, suite: None, rank: None }
    }

    /// Declares the card circuit's columns and selector and compiles its
    /// gate.
    pub fn configure(meta: &mut ConstraintSystem) -> (r: CardConfig)
        requires
            old(meta).advice_count() + 3 <= usize::MAX,
            old(meta).selector_count() < usize::MAX,
        ensures
            card_config_wf(r),
            r.qty.index == old(meta).advice_count(),
            r.suite.index == old(meta).advice_count() + 1,
            r.rank.index == old(meta).advice_count() + 2,
            r.pub_qty.index == old(meta).instance_count(),
            r.pub_suite.index == old(meta).instance_count() + 1,
            r.pub_rank.index == old(meta).instance_count() + 2,
            r.s_check.index == old(meta).selector_count(),
            final(meta).advice_count() == old(meta).advice_count() + 3,
            final(meta).instance_count() == old(meta).instance_count() + 3,
            final(meta).selector_count() == old(meta).selector_count() + 1,
    {
        let qty = meta.advice_column();
        let suite = meta.advice_column();
        let rank = meta.advice_column();
        let pub_qty = meta.instance_column();
        let pub_suite = meta.instance_column();
        let pub_rank = meta.instance_column();
        let s_check = meta.selector();

        CardChip::configure(meta, qty, suite, rank, pub_qty, pub_suite, pub_rank, s_check)
    }

    /// Builds this instance's single region against a configuration: opens
    /// the region, sized to the declared advice columns, and hands the
    /// witness triple to the chip's binder.
    pub fn synthesize(&self, config: CardConfig, meta: &ConstraintSystem) -> (r: Region)
        requires
            card_config_wf(config),
            config.qty.index < meta.advice_count(),
            config.suite.index < meta.advice_count(),
            config.rank.index < meta.advice_count(),
        ensures
            r.selector_enabled,
            r.cells@.len() == meta.advice_count(),
            r.cells@[config.qty.index as int] == self.qty,
            r.cells@[config.suite.index as int] == self.suite,
            r.cells@[config.rank.index as int] == self.rank,
            forall|i: int| 0 <= i < meta.advice_count()
                && i != config.qty.index
                && i != config.suite.index
                && i != config.rank.index
                ==> r.cells@[i] is None,
    {
        let chip = CardChip::construct(config);
        let mut region = Region::new(meta.num_advice_columns());
        chip.assign(&mut region, self.qty, self.suite, self.rank);
        region
    }
}

} // verus!
