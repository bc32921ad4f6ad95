//! Gate compilation: from an ordered list of (column, enumerated-domain)
//! pairs it builds one selector-guarded gate combining per-attribute domain
//! constraints and, for attributes bound to an instance column, equality
//! constraints tying the private cell to the public cell.
//!
//! Gates are data — a list of named polynomial constraints — so their
//! construction can be checked independently of the proving backend.

use vstd::prelude::*;
use crate::expr::{CellRef, Expr, domain_expr_spec, domain_expr};
use crate::registry::{AdviceColumn, InstanceColumn, Selector, ConstraintSystem};

verus! {

/// The two kinds of sub-constraint a gate holds for an attribute.
#[derive(Clone, Copy, Debug, PartialEq, Eq, Structural)]
pub enum ConstraintKind {
    /// Membership of the private cell in the attribute's enumerated domain.
    DomainCheck,
    /// Equality of the private cell with the attribute's public cell.
    EqualityMatch,
}

/// One named sub-constraint of a gate: its expression must evaluate to zero
/// at every row where its guarding selector is active.
#[derive(Clone, Debug)]
pub struct Constraint {
    pub attr: usize,
    pub kind: ConstraintKind,
    pub expr: Expr,
}

/// A gate: polynomial constraints guarded by one shared selector. Rows where
/// the selector is off are unconstrained.
#[derive(Clone, Debug)]
pub struct Gate {
    pub selector: Selector,
    pub constraints: Vec<Constraint>,
}

/// One attribute handed to gate compilation: the private column holding its
/// value, the public column it must equal (when public columns exist), and
/// its enumerated domain of valid values.
pub struct Attribute {
    pub advice: AdviceColumn,
    pub instance: Option<InstanceColumn>,
    pub domain: Vec<u64>,
}

/// Errors raised while a circuit's shape is configured. These are fatal at
/// setup time and never deferred to proving time.
#[derive(Clone, Copy, Debug, PartialEq, Eq, Structural)]
pub enum ConfigurationError {
    /// An attribute references an advice column that was never declared.
    UnknownAdviceColumn { attr: usize },
    /// An attribute references an instance column that was never declared.
    UnknownInstanceColumn { attr: usize },
    /// An attribute targets an instance column with an equality constraint,
    /// but equality was not enabled on that column at declaration time.
    EqualityNotEnabled { attr: usize },
    /// An attribute's enumerated domain has no points, so no value could
    /// ever satisfy it.
    EmptyDomain { attr: usize },
}

/// Whether one attribute is well formed against the declared shape.
pub open spec fn attr_ok(cs: ConstraintSystem, a: Attribute) -> bool {
    &&& a.advice.index < cs.advice_count()
    &&& a.domain@.len() >= 1
    &&& match a.instance {
        Some(col) => col.index < cs.instance_count() && cs.equality_enabled(col.index as int),
        None => true,
    }
}

/// The error gate compilation reports for one ill-formed attribute.
pub open spec fn attr_error(cs: ConstraintSystem, a: Attribute, j: int) -> Option<ConfigurationError> {
    if a.advice.index >= cs.advice_count() {
        Some(ConfigurationError::UnknownAdviceColumn { attr: j as usize })
    } else if a.domain@.len() == 0 {
        Some(ConfigurationError::EmptyDomain { attr: j as usize })
    } else if a.instance matches Some(col) && col.index >= cs.instance_count() {
        Some(ConfigurationError::UnknownInstanceColumn { attr: j as usize })
    } else if a.instance matches Some(col) && !cs.equality_enabled(col.index as int) {
        Some(ConfigurationError::EqualityNotEnabled { attr: j as usize })
    } else {
        None
    }
}

/// The domain constraint the compiler builds for attribute `j`.
pub open spec fn domain_constraint(attrs: Seq<Attribute>, j: int) -> Constraint {
    Constraint {
        attr: j as usize,
        kind: ConstraintKind::DomainCheck,
        expr: domain_expr_spec(CellRef::Advice(attrs[j].advice.index), attrs[j].domain@),
    }
}

/// The equality constraint the compiler builds for attribute `j`, when the
/// attribute is bound to an instance column.
pub open spec fn match_constraint(attrs: Seq<Attribute>, j: int) -> Constraint {
    Constraint {
        attr: j as usize,
        kind: ConstraintKind::EqualityMatch,
        expr: Expr::Sub(
            Box::new(Expr::Advice(attrs[j].advice.index)),
            Box::new(Expr::Instance(attrs[j].instance->Some_0.index)),
        ),
    }
}

/// The equality constraints for the first `n` attributes, in order, skipping
/// attributes without a public column.
pub open spec fn match_constraints(attrs: Seq<Attribute>, n: int) -> Seq<Constraint>
    decreases n,
{
    if n <= 0 {
        Seq::empty()
    } else {
        match_constraints(attrs, n - 1) + if attrs[n - 1].instance is Some {
            seq![match_constraint(attrs, n - 1)]
        } else {
            Seq::empty()
        }
    }
}

/// The full constraint list of the compiled gate: every attribute's domain
/// constraint, in order, then every bound attribute's equality constraint,
/// in order.
pub open spec fn gate_constraints(attrs: Seq<Attribute>) -> Seq<Constraint> {
    Seq::new(attrs.len(), |j: int| domain_constraint(attrs, j)) + match_constraints(
        attrs,
        attrs.len() as int,
    )
}

/// Whether one constraint holds at a row with the given advice and instance
/// cell values.
pub open spec fn constraint_satisfied(c: Constraint, adv: Seq<int>, inst: Seq<int>) -> bool {
    c.expr.eval(adv, inst) == 0
}

/// Whether a gate is satisfied at a row: with the selector active every
/// constraint must evaluate to zero; with the selector off the row is
/// unconstrained.
pub open spec fn gate_satisfied(g: Gate, selector_active: bool, adv: Seq<int>, inst: Seq<int>) -> bool {
    selector_active ==> forall|j: int|
        0 <= j < g.constraints@.len() ==> constraint_satisfied(#[trigger] g.constraints@[j], adv, inst)
}

/// Compiles one gate from the declared shape: a domain constraint per
/// attribute and an equality constraint per attribute bound to a public
/// column. Construction is pure; an attribute that does not fit the declared
/// shape — an unknown column, an empty domain, or an equality target whose
/// column never had equality enabled — is a configuration error, reported
/// for the first attribute at fault.
pub fn compile_gate(cs: &ConstraintSystem, selector: Selector, attrs: &Vec<Attribute>) -> (r: Result<
    Gate,
    ConfigurationError,
>)
    ensures
        match r {
            Ok(g) => {
                &&& forall|j: int| 0 <= j < attrs@.len() ==> attr_ok(*cs, #[trigger] attrs@[j])
                &&& g.selector == selector
                &&& g.constraints@ == gate_constraints(attrs@)
            },
            Err(e) => exists|j: int|
                0 <= j < attrs@.len() && attr_error(*cs, #[trigger] attrs@[j], j) == Some(e)
                    && (forall|i: int| 0 <= i < j ==> attr_error(*cs, #[trigger] attrs@[i], i) is None),
        },
{
    let mut constraints: Vec<Constraint> = Vec::new();
    let mut j: usize = 0;
    while j < attrs.len()
        invariant
            0 <= j <= attrs@.len(),
            forall|i: int| 0 <= i < j ==> attr_ok(*cs, #[trigger] attrs@[i]),
            forall|i: int| 0 <= i < j ==> attr_error(*cs, #[trigger] attrs@[i], i) is None,
            constraints@ =~= Seq::new(j as nat, |i: int| domain_constraint(attrs@, i)),
        decreases attrs@.len() - j,
    {
        let a = &attrs[j];
        if a.advice.index >= cs.num_advice_columns() {
            return Err(ConfigurationError::UnknownAdviceColumn { attr: j });
        }
        if a.domain.len() == 0 {
            return Err(ConfigurationError::EmptyDomain { attr: j });
        }
        match a.instance {
            Some(col) => {
                if col.index >= cs.num_instance_columns() {
                    return Err(ConfigurationError::UnknownInstanceColumn { attr: j });
                }
                if !cs.has_equality(col.index) {
                    return Err(ConfigurationError::EqualityNotEnabled { attr: j });
                }
            },
            None => {},
        }
        let expr = domain_expr(CellRef::Advice(a.advice.index), &a.domain);
        constraints.push(Constraint { attr: j, kind: ConstraintKind::DomainCheck, expr });
        j = j + 1;
    }
    let mut i: usize = 0;
    while i < attrs.len()
        invariant
            0 <= i <= attrs@.len(),
            forall|t: int| 0 <= t < attrs@.len() ==> attr_ok(*cs, #[trigger] attrs@[t]),
            constraints@ =~= Seq::new(attrs@.len(), |t: int| domain_constraint(attrs@, t))
                + match_constraints(attrs@, i as int),
        decreases attrs@.len() - i,
    {
        let a = &attrs[i];
        match a.instance {
            Some(col) => {
                let expr = Expr::Sub(
                    Box::new(Expr::Advice(a.advice.index)),
                    Box::new(Expr::Instance(col.index)),
                );
                constraints.push(Constraint { attr: i, kind: ConstraintKind::EqualityMatch, expr });
            },
            None => {},
        }
        i = i + 1;
    }
    Ok(Gate { selector, constraints })
}

} // verus!
