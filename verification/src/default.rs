//! Implementations for callers that opt out of a capability: a tag set with
//! no bits, a chain that discards its errors, a manager that recognizes
//! nothing, and a chain over `Option` that stays empty until an error comes.

use crate::{Chain, GlobalManager, Manager, Report, Tags};
use vstd::pervasive::unreached;
use vstd::prelude::*;

verus! {

/// The tag set that carries no classification at all.
#[derive(Clone, Copy)]
pub struct NoTags;

impl Tags for NoTags {
    open spec fn bits(&self) -> u64 {
        0
    }

    open spec fn debug_view(&self) -> Seq<char> {
        Seq::empty()
    }

    open spec fn display_view(&self) -> Seq<char> {
        Seq::empty()
    }

    fn empty() -> (r: Self) {
        NoTags
    }

    fn union(self, other: Self) -> (r: Self) {
        proof {
            assert((0u64 | 0u64) == 0u64) by (bit_vector);
        }
        NoTags
    }

    fn debug_str(&self) -> (r: String) {
        String::new()
    }

    fn display_str(&self) -> (r: String) {
        String::new()
    }
}

/// The chain that stores nothing: every report it is given is discarded.
#[derive(Clone, Copy)]
pub struct NoChain;

impl Chain for NoChain {
    open spec fn cv(&self) -> Seq<Report> {
        Seq::empty()
    }

    open spec fn kept(err: Report) -> Seq<Report> {
        Seq::empty()
    }

    fn new(err: Report) -> (r: Self) {
        NoChain
    }

    fn append(self, other: Self) -> (r: Self) {
        proof {
            assert(self.cv() + other.cv() =~= Seq::<Report>::empty());
        }
        NoChain
    }

    fn len(&self) -> (n: usize) {
        0
    }

    fn get(&self, i: usize) -> (r: &Report) {
        unreached()
    }
}

/// A chain is stored only once an error arrives; until then the option
/// stays empty and contributes nothing.
impl<C: Chain> Chain for Option<C> {
    open spec fn cv(&self) -> Seq<Report> {
        match self {
            Option::None => Seq::empty(),
            Option::Some(inner) => inner.cv(),
        }
    }

    open spec fn kept(err: Report) -> Seq<Report> {
        C::kept(err)
    }

    fn new(err: Report) -> (r: Self) {
        Some(C::new(err))
    }

    fn push(self, err: Report) -> (r: Self) {
        match self {
            None => {
                proof {
                    assert(Seq::<Report>::empty() + C::kept(err) =~= C::kept(err));
                }
                Self::new(err)
            },
            Some(inner) => Some(inner.push(err)),
        }
    }

    fn append(self, other: Self) -> (r: Self) {
        match (self, other) {
            (None, None) => None,
            (None, Some(rhs)) => {
                proof {
                    assert(Seq::<Report>::empty() + rhs.cv() =~= rhs.cv());
                }
                Some(rhs)
            },
            (Some(lhs), None) => {
                proof {
                    assert(lhs.cv() + Seq::<Report>::empty() =~= lhs.cv());
                }
                Some(lhs)
            },
            (Some(lhs), Some(rhs)) => Some(lhs.append(rhs)),
        }
    }

    fn len(&self) -> (n: usize) {
        match self {
            None => 0,
            Some(inner) => inner.len(),
        }
    }

    fn get(&self, i: usize) -> (r: &Report) {
        match self {
            None => unreached(),
            Some(inner) => inner.get(i),
        }
    }
}

/// The manager that recognizes no error type: every report derives to the
/// empty tag set.
#[derive(Clone, Copy)]
pub struct NoManager;

impl<C: Chain, X: Tags> Manager<C, X> for NoManager {
    open spec fn table(&self) -> Map<u64, u64> {
        Map::empty()
    }

    fn derive(&self, err: &Report) -> (r: X) {
        X::empty()
    }
}

impl<C: Chain, X: Tags> GlobalManager<C, X> for NoManager {
    open spec fn global_table() -> Map<u64, u64> {
        Map::empty()
    }

    proof fn table_is_global(&self) {
    }

    fn global() -> (r: Self) {
        NoManager
    }
}

} // verus!
