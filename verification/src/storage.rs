//! The compact growable error list backing the default chain: one growable
//! buffer of report handles in insertion order, owned exclusively.
//!
//! The structure is created with exactly one report and never becomes empty;
//! `append` transfers its source's handles in one bulk move, so every handle
//! stays owned by exactly one list and is released exactly once.

use crate::{Chain, Report};
use vstd::prelude::*;

verus! {

/// A single growable buffer of owned report handles, created non-empty.
pub struct OwnedCell {
    items: Vec<Report>,
}

impl View for OwnedCell {
    type V = Seq<Report>;

    closed spec fn view(&self) -> Seq<Report> {
        self.items@
    }
}

impl OwnedCell {
    /// A constructed list always holds at least one report.
    pub open spec fn wf(&self) -> bool {
        self@.len() >= 1
    }

    /// Allocate the list with its first report.
    pub fn new(first: Report) -> (r: Self)
        ensures
            r@ == seq![first],
            r.wf(),
    {
        let mut items: Vec<Report> = Vec::with_capacity(1);
        items.push(first);
        proof {
            assert(items@ =~= seq![first]);
        }
        OwnedCell { items }
    }

    /// The stored reports, in insertion order, without copying.
    pub fn as_slice(&self) -> (r: &[Report])
        ensures
            r@ == self@,
    {
        self.items.as_slice()
    }

    /// Append one report at the tail; the buffer grows as needed.
    pub fn push(&mut self, err: Report)
        ensures
            final(self)@ == old(self)@.push(err),
            old(self).wf() ==> final(self).wf(),
    {
        self.items.push(err);
    }

    /// Move every report of `other` to the tail of `self` in one bulk
    /// transfer; `other`'s storage is released, its reports are not.
    pub fn append(&mut self, other: Self)
        ensures
            final(self)@ == old(self)@ + other@,
            old(self).wf() ==> final(self).wf(),
    {
        let mut source = other;
        self.items.append(&mut source.items);
    }
}

impl Chain for OwnedCell {
    open spec fn cv(&self) -> Seq<Report> {
        self@
    }

    open spec fn kept(err: Report) -> Seq<Report> {
        seq![err]
    }

    fn new(err: Report) -> (r: Self) {
        OwnedCell::new(err)
    }

    fn push(self, err: Report) -> (r: Self) {
        let mut grown = self;
        OwnedCell::push(&mut grown, err);
        proof {
            assert(grown@ =~= self@ + seq![err]);
        }
        grown
    }

    fn append(self, other: Self) -> (r: Self) {
        let mut joined = self;
        OwnedCell::append(&mut joined, other);
        joined
    }

    fn len(&self) -> (n: usize) {
        self.items.len()
    }

    fn get(&self, i: usize) -> (r: &Report) {
        &self.items[i]
    }
}

} // verus!
