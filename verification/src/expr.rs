//! Polynomial expressions over the cells of one circuit row, represented as
//! plain data, and the enumerated-domain vanishing products built from them.
//!
//! A domain constraint for a valid set `{v1, ..., vn}` is the product
//! `(v1 - x) * (v2 - x) * ... * (vn - x)`, where `x` is the queried cell. The
//! lemmas here pin down when that product evaluates to zero in the field.

use vstd::prelude::*;
use crate::field::{modulus, fsub, fmul};
use vstd::arithmetic::div_mod::{
    lemma_small_mod, lemma_mod_bound, lemma_mod_add_multiples_vanish,
    lemma_mul_mod_noop_general,
};
use vstd::arithmetic::mul::lemma_mul_nonzero;
use vstd::arithmetic::power::{pow, lemma_pow_positive, lemma_pow_increases};

verus! {

/// A reference to one cell of the row: an advice (private witness) column or
/// an instance (public input) column, by declaration index.
#[derive(Clone, Copy, Debug, PartialEq, Eq, Structural)]
pub enum CellRef {
    Advice(usize),
    Instance(usize),
}

/// A polynomial expression over the cells of one row.
#[derive(Debug)]
pub enum Expr {
    /// A constant field element, given by its 64-bit value.
    Const(u64),
    /// The value of the advice column with this index.
    Advice(usize),
    /// The value of the instance column with this index.
    Instance(usize),
    /// Difference of two expressions.
    Sub(Box<Expr>, Box<Expr>),
    /// Product of two expressions.
    Mul(Box<Expr>, Box<Expr>),
}

impl Expr {
    /// Value of the expression at a row whose advice cells hold `adv` and
    /// whose instance cells hold `inst`, as a canonical field element; a
    /// cell beyond either sequence reads as zero.
    pub open spec fn eval(self, adv: Seq<int>, inst: Seq<int>) -> int
        decreases self,
    {
        match self {
            Expr::Const(c) => c as int,
            Expr::Advice(i) => if i < adv.len() { adv[i as int] } else { 0 },
            Expr::Instance(i) => if i < inst.len() { inst[i as int] } else { 0 },
            Expr::Sub(a, b) => fsub(a.eval(adv, inst), b.eval(adv, inst)),
            Expr::Mul(a, b) => fmul(a.eval(adv, inst), b.eval(adv, inst)),
        }
    }
}

impl Clone for Expr {
    /// A deep copy of the expression tree.
    fn clone(&self) -> (r: Self)
        ensures
            r == self,
        decreases self,
    {
        match self {
            Expr::Const(c) => Expr::Const(*c),
            Expr::Advice(i) => Expr::Advice(*i),
            Expr::Instance(i) => Expr::Instance(*i),
            Expr::Sub(a, b) => Expr::Sub(Box::new((**a).clone()), Box::new((**b).clone())),
            Expr::Mul(a, b) => Expr::Mul(Box::new((**a).clone()), Box::new((**b).clone())),
        }
    }
}

/// The expression that queries a cell.
pub open spec fn cell_expr(c: CellRef) -> Expr {
    match c {
        CellRef::Advice(i) => Expr::Advice(i),
        CellRef::Instance(i) => Expr::Instance(i),
    }
}

/// Builds the expression that queries a cell.
pub fn query_cell(c: CellRef) -> (r: Expr)
    ensures
        r == cell_expr(c),
{
    match c {
        CellRef::Advice(i) => Expr::Advice(i),
        CellRef::Instance(i) => Expr::Instance(i),
    }
}

/// The vanishing product `(vs[0] - x) * ... * (vs[n-1] - x)` evaluated in
/// the field, folded from the left as gate compilation builds it; the empty
/// product is one.
pub open spec fn domain_product(x: int, vs: Seq<int>) -> int
    decreases vs.len(),
{
    if vs.len() == 0 {
        1
    } else {
        fmul(domain_product(x, vs.drop_last()), fsub(vs.last(), x))
    }
}

/// The same product carried out over the integers, without reduction.
pub open spec fn int_product(x: int, vs: Seq<int>) -> int
    decreases vs.len(),
{
    if vs.len() == 0 {
        1
    } else {
        int_product(x, vs.drop_last()) * (vs.last() - x)
    }
}

/// The expression form of the vanishing product for the domain `vs`, queried
/// at `cell`.
pub open spec fn domain_expr_spec(cell: CellRef, vs: Seq<u64>) -> Expr
    decreases vs.len(),
{
    if vs.len() <= 1 {
        Expr::Sub(
            Box::new(Expr::Const(if vs.len() == 1 { vs.last() } else { 0 })),
            Box::new(cell_expr(cell)),
        )
    } else {
        Expr::Mul(
            Box::new(domain_expr_spec(cell, vs.drop_last())),
            Box::new(Expr::Sub(Box::new(Expr::Const(vs.last())), Box::new(cell_expr(cell)))),
        )
    }
}

/// Builds the enumerated-domain constraint for the valid set `values`,
/// queried at `cell`: a pure function from domain to expression data.
pub fn domain_expr(cell: CellRef, values: &Vec<u64>) -> (r: Expr)
    requires
        values@.len() >= 1,
    ensures
        r == domain_expr_spec(cell, values@),
{
    let mut acc = Expr::Sub(Box::new(Expr::Const(values[0])), Box::new(query_cell(cell)));
    assert(values@.take(1).len() == 1 && values@.take(1).last() == values@[0]);
    let mut i: usize = 1;
    while i < values.len()
        invariant
            1 <= i <= values@.len(),
            acc == domain_expr_spec(cell, values@.take(i as int)),
        decreases values@.len() - i,
    {
        let factor = Expr::Sub(Box::new(Expr::Const(values[i])), Box::new(query_cell(cell)));
        proof {
            assert(values@.take(i + 1).drop_last() =~= values@.take(i as int));
            assert(values@.take(i + 1).last() == values@[i as int]);
        }
        acc = Expr::Mul(Box::new(acc), Box::new(factor));
        i = i + 1;
    }
    proof {
        assert(values@.take(values@.len() as int) =~= values@);
    }
    acc
}

/// The domain expression evaluates to the vanishing product of the queried
/// cell's value.
pub proof fn lemma_domain_expr_eval(cell: CellRef, vs: Seq<u64>, adv: Seq<int>, inst: Seq<int>)
    requires
        vs.len() >= 1,
    ensures
        domain_expr_spec(cell, vs).eval(adv, inst) == domain_product(
            cell_expr(cell).eval(adv, inst),
            vs.map_values(|v: u64| v as int),
        ),
    decreases vs.len(),
{
    let x = cell_expr(cell).eval(adv, inst);
    let ivs = vs.map_values(|v: u64| v as int);
    if vs.len() == 1 {
        assert(domain_expr_spec(cell, vs) == Expr::Sub(
            Box::new(Expr::Const(vs.last())),
            Box::new(cell_expr(cell)),
        ));
        let de = domain_expr_spec(cell, vs);
        assert(de matches Expr::Sub(a, b));
        assert(de.eval(adv, inst) == fsub(
            Expr::Const(vs.last()).eval(adv, inst),
            cell_expr(cell).eval(adv, inst),
        ));
        assert(de.eval(adv, inst) == fsub(vs.last() as int, x));
        assert(ivs.last() == vs.last() as int);
        let t = fsub(vs.last() as int, x);
        lemma_mod_bound(vs.last() - x, modulus());
        lemma_small_mod(t as nat, modulus() as nat);
        assert(ivs.drop_last() =~= Seq::<int>::empty());
        assert(domain_product(x, ivs.drop_last()) == 1);
        assert(domain_product(x, ivs) == fmul(1, t));
        assert(fmul(1, t) == (1 * t) % modulus());
        assert(1 * t == t);
    } else {
        lemma_domain_expr_eval(cell, vs.drop_last(), adv, inst);
        assert(ivs.drop_last() =~= vs.drop_last().map_values(|v: u64| v as int));
        assert(ivs.last() == vs.last() as int);
        let de = domain_expr_spec(cell, vs);
        let factor = Expr::Sub(Box::new(Expr::Const(vs.last())), Box::new(cell_expr(cell)));
        assert(de matches Expr::Mul(a, b));
        assert(factor matches Expr::Sub(a, b));
        assert(factor.eval(adv, inst) == fsub(
            Expr::Const(vs.last()).eval(adv, inst),
            cell_expr(cell).eval(adv, inst),
        ));
        assert(de.eval(adv, inst) == fmul(
            domain_expr_spec(cell, vs.drop_last()).eval(adv, inst),
            factor.eval(adv, inst),
        ));
    }
}

/// If the queried value is one of the domain's points, the integer product
/// vanishes.
pub proof fn lemma_int_product_vanishes(x: int, vs: Seq<int>)
    requires
        vs.contains(x),
    ensures
        int_product(x, vs) == 0,
    decreases vs.len(),
{
    if vs.last() == x {
    } else {
        let j = choose|j: int| 0 <= j < vs.len() && vs[j] == x;
        assert(vs.drop_last()[j] == x);
        lemma_int_product_vanishes(x, vs.drop_last());
    }
}

/// If the queried value avoids every point of the domain and all the factors
/// are bounded by `b`, the integer product is nonzero and bounded by
/// `b^len`.
pub proof fn lemma_int_product_bounds(x: int, vs: Seq<int>, b: int)
    requires
        1 <= b,
        forall|j: int| 0 <= j < vs.len() ==> -b <= #[trigger] vs[j] - x <= b,
        forall|j: int| 0 <= j < vs.len() ==> #[trigger] vs[j] != x,
    ensures
        int_product(x, vs) != 0,
        -pow(b, vs.len()) <= int_product(x, vs) <= pow(b, vs.len()),
    decreases vs.len(),
{
    reveal(pow);
    lemma_pow_positive(b, vs.len());
    if vs.len() == 0 {
    } else {
        let head = int_product(x, vs.drop_last());
        let f = vs.last() - x;
        let n1 = (vs.len() - 1) as nat;
        assert(forall|j: int| 0 <= j < vs.drop_last().len() ==> -b <= #[trigger] vs.drop_last()[j] - x <= b);
        assert(forall|j: int| 0 <= j < vs.drop_last().len() ==> #[trigger] vs.drop_last()[j] != x);
        lemma_int_product_bounds(x, vs.drop_last(), b);
        lemma_mul_nonzero(head, f);
        lemma_pow_positive(b, n1);
        let hb = pow(b, n1);
        assert(pow(b, vs.len()) == b * hb);
        assert(-(b * hb) <= head * f <= b * hb) by (nonlinear_arith)
            requires
                -hb <= head <= hb,
                -b <= f <= b,
                hb > 0,
                b >= 1;
    }
}

/// A value below this bound keeps the vanishing product of a small domain
/// within the field's order, so the product can be reasoned about over the
/// integers: twelve factors, each below `2^21` in magnitude, multiply to
/// less than `2^252`, which is below the field's order.
pub open spec fn small_value_bound() -> int {
    0x1FFFF0
}

/// A queried value that is one of the domain's points makes the vanishing
/// product zero. This direction holds for every field value, with no size
/// bound.
pub proof fn lemma_domain_product_vanishes(x: int, vs: Seq<int>)
    requires
        vs.contains(x),
    ensures
        domain_product(x, vs) == 0,
{
    lemma_domain_product_mod(x, vs);
    lemma_int_product_vanishes(x, vs);
    lemma_small_mod(0nat, modulus() as nat);
}

/// The field vanishing product of a domain of at most twelve points, each
/// at most fifteen, is zero exactly when the queried value is one of the
/// domain's points. Over the whole field this characterization is the
/// mathematical intent — a prime field has no zero divisors, so the
/// degree-n product has exactly its n enumerated roots — but that rests on
/// the primality of the modulus, which this development does not prove.
/// What is established here: the vanishing direction holds for every field
/// value (`lemma_domain_product_vanishes`), and for queried values below
/// `small_value_bound()` — the reach of the integer-product technique,
/// whose twelve factors must stay below the field's order — the reverse
/// direction holds too, so the equivalence is complete on that range.
pub proof fn lemma_domain_product_zero_iff(x: int, vs: Seq<int>)
    requires
        0 <= x < small_value_bound(),
        vs.len() <= 12,
        forall|j: int| 0 <= j < vs.len() ==> 0 <= #[trigger] vs[j] <= 15,
    ensures
        domain_product(x, vs) == 0 <==> vs.contains(x),
{
    lemma_domain_product_mod(x, vs);
    if vs.contains(x) {
        lemma_domain_product_vanishes(x, vs);
    } else {
        assert(forall|j: int| 0 <= j < vs.len() ==> #[trigger] vs[j] != x);
        let b = 0x200000int;
        assert(forall|j: int| 0 <= j < vs.len() ==> -b <= #[trigger] vs[j] - x <= b);
        lemma_int_product_bounds(x, vs, b);
        lemma_pow_increases(b as nat, vs.len(), 12);
        lemma_pow_2_21_12();
        assert(pow(b, 12) < modulus());
        let ip = int_product(x, vs);
        if ip > 0 {
            lemma_small_mod(ip as nat, modulus() as nat);
        } else {
            lemma_mod_add_multiples_vanish(ip, modulus());
            lemma_small_mod((ip + modulus()) as nat, modulus() as nat);
        }
    }
}

/// Twelve factors of `2^21` stay below the field's order.
proof fn lemma_pow_2_21_12()
    ensures
        pow(0x200000, 12) < modulus(),
{
    reveal(pow);
    let b = 0x200000int;
    assert(pow(b, 0) == 1);
    assert(pow(b, 1) == 0x200000);
    assert(pow(b, 2) == 0x40000000000);
    assert(pow(b, 3) == 0x8000000000000000);
    assert(pow(b, 4) == 0x1000000000000000000000int);
    assert(pow(b, 5) == 0x200000000000000000000000000int);
    assert(pow(b, 6) == 0x40000000000000000000000000000000int);
    assert(pow(b, 7) == 0x8000000000000000000000000000000000000int);
    assert(pow(b, 8) == 0x1000000000000000000000000000000000000000000int);
    assert(pow(b, 9) == 0x200000000000000000000000000000000000000000000000int);
    assert(pow(b, 10) == 0x40000000000000000000000000000000000000000000000000000int);
    assert(pow(b, 11) == 0x8000000000000000000000000000000000000000000000000000000000int);
    assert(pow(b, 12) == 0x1000000000000000000000000000000000000000000000000000000000000000int);
}

/// The field vanishing product is the integer product reduced modulo the
/// field's order.
pub proof fn lemma_domain_product_mod(x: int, vs: Seq<int>)
    ensures
        domain_product(x, vs) == int_product(x, vs) % modulus(),
    decreases vs.len(),
{
    if vs.len() == 0 {
        lemma_small_mod(1nat, modulus() as nat);
    } else {
        lemma_domain_product_mod(x, vs.drop_last());
        lemma_mul_mod_noop_general(int_product(x, vs.drop_last()), vs.last() - x, modulus());
    }
}

} // verus!
