//! The column/selector registry: declares private-witness columns,
//! public-instance columns and selectors, returning stable handles, and
//! records which instance columns may take part in equality constraints.
//!
//! Equality on an instance column must be enabled at declaration time; a gate
//! that targets a column without the flag is refused when it is compiled,
//! never at proving time.

use vstd::prelude::*;

verus! {

/// Handle to a declared advice (private witness) column.
#[derive(Clone, Copy, Debug, PartialEq, Eq, Structural)]
pub struct AdviceColumn {
    pub index: usize,
}

/// Handle to a declared instance (public input) column.
#[derive(Clone, Copy, Debug, PartialEq, Eq, Structural)]
pub struct InstanceColumn {
    pub index: usize,
}

/// Handle to a declared selector: a boolean column that activates a gate's
/// constraints at a row.
#[derive(Clone, Copy, Debug, PartialEq, Eq, Structural)]
pub struct Selector {
    pub index: usize,
}

/// The registry of declared columns and selectors.
pub struct ConstraintSystem {
    num_advice: usize,
    num_selectors: usize,
    equality: Vec<bool>,
}

impl ConstraintSystem {
    /// Number of advice columns declared so far.
    pub closed spec fn advice_count(self) -> nat {
        self.num_advice as nat
    }

    /// Number of instance columns declared so far.
    pub closed spec fn instance_count(self) -> nat {
        self.equality@.len()
    }

    /// Number of selectors declared so far.
    pub closed spec fn selector_count(self) -> nat {
        self.num_selectors as nat
    }

    /// Whether equality was enabled on the instance column with this index.
    pub closed spec fn equality_enabled(self, i: int) -> bool {
        0 <= i < self.equality@.len() && self.equality@[i]
    }

    /// Number of advice columns declared so far.
    pub fn num_advice_columns(&self) -> (r: usize)
        ensures
            r == self.advice_count(),
    {
        self.num_advice
    }

    /// Number of instance columns declared so far.
    pub fn num_instance_columns(&self) -> (r: usize)
        ensures
            r == self.instance_count(),
    {
        self.equality.len()
    }

    /// Whether equality was enabled on the instance column with this index.
    pub fn has_equality(&self, i: usize) -> (r: bool)
        requires
            i < self.instance_count(),
        ensures
            r == self.equality_enabled(i as int),
    {
        self.equality[i]
    }

    /// A fresh registry with nothing declared.
    pub fn new() -> (r: Self)
        ensures
            r.advice_count() == 0,
            r.instance_count() == 0,
            r.selector_count() == 0,
    {
        ConstraintSystem { num_advice: 0, num_selectors: 0, equality: Vec::new() }
    }

    /// Declares a private-witness column and returns its handle.
    pub fn advice_column(&mut self) -> (r: AdviceColumn)
        requires
            old(self).advice_count() < usize::MAX,
        ensures
            r.index == old(self).advice_count(),
            final(self).advice_count() == old(self).advice_count() + 1,
            final(self).instance_count() == old(self).instance_count(),
            final(self).selector_count() == old(self).selector_count(),
            forall|i: int| final(self).equality_enabled(i) == old(self).equality_enabled(i),
    {
        let index = self.num_advice;
        self.num_advice = self.num_advice + 1;
        AdviceColumn { index }
    }

    /// Declares a public-instance column, with equality not yet enabled, and
    /// returns its handle.
    pub fn instance_column(&mut self) -> (r: InstanceColumn)
        ensures
            r.index == old(self).instance_count(),
            final(self).instance_count() == old(self).instance_count() + 1,
            final(self).advice_count() == old(self).advice_count(),
            final(self).selector_count() == old(self).selector_count(),
            !final(self).equality_enabled(r.index as int),
            forall|i: int| 0 <= i < old(self).instance_count()
                ==> final(self).equality_enabled(i) == old(self).equality_enabled(i),
    {
        let index = self.equality.len();
        self.equality.push(false);
        InstanceColumn { index }
    }

    /// Declares a selector and returns its handle.
    pub fn selector(&mut self) -> (r: Selector)
        requires
            old(self).selector_count() < usize::MAX,
        ensures
            r.index == old(self).selector_count(),
            final(self).selector_count() == old(self).selector_count() + 1,
            final(self).advice_count() == old(self).advice_count(),
            final(self).instance_count() == old(self).instance_count(),
            forall|i: int| final(self).equality_enabled(i) == old(self).equality_enabled(i),
    {
        let index = self.num_selectors;
        self.num_selectors = self.num_selectors + 1;
        Selector { index }
    }

    /// Enables equality constraints on an instance column. This must happen
    /// before any gate targets the column with an equality constraint.
    pub fn enable_equality(&mut self, col: InstanceColumn)
        requires
            col.index < old(self).instance_count(),
        ensures
            final(self).advice_count() == old(self).advice_count(),
            final(self).instance_count() == old(self).instance_count(),
            final(self).selector_count() == old(self).selector_count(),
            final(self).equality_enabled(col.index as int),
            forall|i: int| 0 <= i < old(self).instance_count() && i != col.index
                ==> final(self).equality_enabled(i) == old(self).equality_enabled(i),
    {
        self.equality.set(col.index, true);
    }
}

} // verus!
