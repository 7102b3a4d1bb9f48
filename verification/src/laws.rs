//! The algebraic laws the library promises, written out and proved.
//!
//! [`crate::Tags::union`] reduces every tag set to bitwise-or on its model
//! and [`crate::Chain`] reduces every chain to sequence concatenation on
//! its model, so the laws are stated over those models.

use crate::bitflags::Bitflags;
use crate::storage::OwnedCell;
use crate::{Chain, Derivable, Error, GlobalManager, Report, Tags};
use vstd::prelude::*;

verus! {

/// The empty tag set is the identity of `union`: joining it changes no
/// classification bits.
pub proof fn lemma_union_identity(a: u64)
    ensures
        (a | 0) == a,
        (0 | a) == a,
{
    assert((a | 0) == a && (0 | a) == a) by (bit_vector);
}

/// `union` is commutative on the classification bits.
pub proof fn lemma_union_commutative(a: u64, b: u64)
    ensures
        (a | b) == (b | a),
{
    assert((a | b) == (b | a)) by (bit_vector);
}

/// `union` is associative on the classification bits.
pub proof fn lemma_union_associative(a: u64, b: u64, c: u64)
    ensures
        ((a | b) | c) == (a | (b | c)),
{
    assert(((a | b) | c) == (a | (b | c))) by (bit_vector);
}

/// `union` is idempotent on the classification bits.
pub proof fn lemma_union_idempotent(a: u64)
    ensures
        (a | a) == a,
{
    assert((a | a) == a) by (bit_vector);
}

/// For the bit-flag tag set the model determines the value, so the
/// semilattice laws hold as equalities between [`Bitflags`] values, not
/// only between their models.
pub proof fn lemma_bitflags_model_determines_value(a: Bitflags, b: Bitflags)
    requires
        a.bits() == b.bits(),
    ensures
        a == b,
{
}

/// Building a chain as `new(e1).push(e2).push(e3)` yields exactly
/// `[e1, e2, e3]`, and `new(e1).append(new(e2))` yields `[e1, e2]`: `new`
/// contributes the singleton (see [`OwnedCell`]'s `kept`), `push` appends
/// one contribution at the tail and `append` concatenates in order.
pub proof fn lemma_chain_build_order(e1: Report, e2: Report, e3: Report)
    ensures
        <OwnedCell as Chain>::kept(e1) + <OwnedCell as Chain>::kept(e2) == seq![e1, e2],
        (<OwnedCell as Chain>::kept(e1) + <OwnedCell as Chain>::kept(e2)) + <OwnedCell as Chain>::kept(
            e3,
        ) == seq![e1, e2, e3],
{
    assert(seq![e1] + seq![e2] =~= seq![e1, e2]);
    assert((seq![e1] + seq![e2]) + seq![e3] =~= seq![e1, e2, e3]);
}

/// Derivation is idempotent: deriving an already-built envelope leaves its
/// tags and its chain unchanged, whatever dispatch table the manager uses.
pub proof fn lemma_derive_idempotent<C: Chain, X: Tags, D: GlobalManager<C, X>>(
    env: Error<C, X, D>,
    table: Map<u64, u64>,
)
    ensures
        env.derived_tags(table) == env.tags_bits(),
        env.derived_chain() == env.chain_view(),
{
}

/// The manager-free combinators agree with the explicit-manager ones
/// whenever the explicit manager has the global manager's type: every value
/// of such a type classifies by the singleton's table.
pub proof fn lemma_global_manager_agrees<
    C: Chain,
    X: Tags,
    D: GlobalManager<C, X>,
    E: Derivable<C, X, D>,
>(e: E, m: &D)
    ensures
        e.derived_tags(m.table()) == e.derived_tags(D::global_table()),
{
    m.table_is_global();
}

} // verus!
