//! A dispatch-table classifier: a manager that maps stable type tags to
//! bit-flag tag sets through a lookup table, returning the empty tag set for
//! every unrecognized tag.

use crate::bitflags::Bitflags;
use crate::{Chain, Manager, Report};
use vstd::prelude::*;

verus! {

/// The mathematical table of a list of `(kind, bits)` entries; an earlier
/// entry wins over a later one with the same kind.
pub open spec fn entries_table(s: Seq<(u64, u64)>) -> Map<u64, u64>
    decreases s.len(),
{
    if s.len() == 0 {
        Map::empty()
    } else {
        entries_table(s.drop_first()).insert(s[0].0, s[0].1)
    }
}

proof fn lemma_no_match(s: Seq<(u64, u64)>, kind: u64)
    requires
        forall|j: int| 0 <= j < s.len() ==> s[j].0 != kind,
    ensures
        !entries_table(s).dom().contains(kind),
    decreases s.len(),
{
    if s.len() > 0 {
        lemma_no_match(s.drop_first(), kind);
    }
}

proof fn lemma_first_match(s: Seq<(u64, u64)>, kind: u64, i: int)
    requires
        0 <= i < s.len(),
        s[i].0 == kind,
        forall|j: int| 0 <= j < i ==> s[j].0 != kind,
    ensures
        entries_table(s).dom().contains(kind),
        entries_table(s)[kind] == s[i].1,
    decreases s.len(),
{
    if i > 0 {
        lemma_first_match(s.drop_first(), kind, i - 1);
    }
}

/// A manager classifying by a runtime lookup table from type tags to flag
/// bits.
pub struct TableManager {
    entries: Vec<(u64, u64)>,
}

impl TableManager {
    /// The manager that recognizes nothing yet.
    pub fn new() -> (r: Self)
        ensures
            r.spec_table() == Map::<u64, u64>::empty(),
    {
        TableManager { entries: Vec::new() }
    }

    /// The manager's lookup table.
    pub closed spec fn spec_table(&self) -> Map<u64, u64> {
        entries_table(self.entries@)
    }

    /// Let reports of type tag `kind` derive to `bits`; overrides an earlier
    /// registration of the same tag.
    pub fn register(&mut self, kind: u64, bits: u64)
        ensures
            final(self).spec_table() == old(self).spec_table().insert(kind, bits),
    {
        self.entries.insert(0, (kind, bits));
        proof {
            assert(self.entries@.drop_first() =~= old(self).entries@);
        }
    }
}

impl<C: Chain> Manager<C, Bitflags> for TableManager {
    open spec fn table(&self) -> Map<u64, u64> {
        self.spec_table()
    }

    fn derive(&self, err: &Report) -> (r: Bitflags) {
        let n = self.entries.len();
        let mut i: usize = 0;
        while i < n
            invariant
                i <= n,
                n == self.entries@.len(),
                forall|j: int| 0 <= j < i ==> self.entries@[j].0 != err.kind,
            decreases n - i,
        {
            let pair = self.entries[i];
            if pair.0 == err.kind {
                proof {
                    lemma_first_match(self.entries@, err.kind, i as int);
                }
                return Bitflags(pair.1);
            }
            i = i + 1;
        }
        proof {
            lemma_no_match(self.entries@, err.kind);
        }
        Bitflags(0)
    }
}

} // verus!
