//! An error-composition library: callers build richly classified, causally
//! chained error values out of heterogeneous underlying errors.
//!
//! A raw error enters as a [`Report`]; a [`Manager`] classifies it by its
//! stable type tag into a tag set; the combinators of [`ErrorExt`] fold
//! reports and already-built envelopes into a uniform [`Error`] envelope
//! pairing one [`Chain`] of reports with one [`Tags`] value.

use vstd::prelude::*;
use vstd::string::StringExecFns;

pub mod bitflags;
pub mod default;
pub mod laws;
pub mod storage;
pub mod table;

verus! {

/// One recorded underlying error: a stable type tag identifying the concrete
/// error type it came from, plus its two renderings. The payload itself is
/// opaque to this library; only the tag and the renderings are ever read.
pub struct Report {
    /// Stable identifier of the concrete error type (never of its message).
    pub kind: u64,
    /// The error's debug rendering.
    pub debug_text: String,
    /// The error's display rendering.
    pub display_text: String,
}

/// A classification value forming a join semilattice: `empty` is the
/// identity and `union` is commutative, associative and idempotent.
///
/// Every implementation is modelled by a word of classification bits;
/// `union` is bitwise-or on the model, which makes the semilattice laws
/// facts about `|` (see the lemmas in [`crate::laws`]).
pub trait Tags: Sized {
    /// The classification bits this value carries.
    spec fn bits(&self) -> u64;

    /// What the debug rendering shows.
    spec fn debug_view(&self) -> Seq<char>;

    /// What the display rendering shows.
    spec fn display_view(&self) -> Seq<char>;

    /// The identity element: no classification bits.
    fn empty() -> (r: Self)
        ensures
            r.bits() == 0,
    ;

    /// Join two classification values.
    fn union(self, other: Self) -> (r: Self)
        ensures
            r.bits() == (self.bits() | other.bits()),
    ;

    /// Render for debugging.
    fn debug_str(&self) -> (r: String)
        ensures
            r@ == self.debug_view(),
    ;

    /// Render for display; implementations usually reuse the debug rendering.
    fn display_str(&self) -> (r: String)
        ensures
            r@ == self.display_view(),
    ;
}

/// The debug rendering of a chain's elements in list mode: the elements'
/// debug renderings, comma-separated.
pub open spec fn debug_list_body(s: Seq<Report>) -> Seq<char>
    decreases s.len(),
{
    if s.len() == 0 {
        Seq::empty()
    } else if s.len() == 1 {
        s[0].debug_text@
    } else {
        debug_list_body(s.drop_last()) + ", "@ + s.last().debug_text@
    }
}

/// The debug rendering of a chain's elements in block mode: every element's
/// debug rendering followed by a blank line.
pub open spec fn debug_blocks(s: Seq<Report>) -> Seq<char>
    decreases s.len(),
{
    if s.len() == 0 {
        Seq::empty()
    } else {
        debug_blocks(s.drop_last()) + s.last().debug_text@ + "\n\n"@
    }
}

/// The debug rendering of a chain: a structured list in alternate mode,
/// blocks otherwise.
pub open spec fn chain_debug_view(s: Seq<Report>, alternate: bool) -> Seq<char> {
    if alternate {
        "["@ + debug_list_body(s) + "]"@
    } else {
        debug_blocks(s)
    }
}

/// The display rendering of a chain: only the last element's rendering.
pub open spec fn chain_display_view(s: Seq<Report>) -> Seq<char> {
    if s.len() == 0 {
        Seq::empty()
    } else {
        s.last().display_text@
    }
}

proof fn lemma_debug_list_step(s: Seq<Report>, i: int)
    requires
        0 <= i < s.len(),
    ensures
        debug_list_body(s.take(i + 1)) == if i == 0 {
            s[0].debug_text@
        } else {
            debug_list_body(s.take(i)) + ", "@ + s[i].debug_text@
        },
{
    let t = s.take(i + 1);
    assert(t.drop_last() =~= s.take(i));
    assert(t.last() == s[i]);
}

proof fn lemma_debug_blocks_step(s: Seq<Report>, i: int)
    requires
        0 <= i < s.len(),
    ensures
        debug_blocks(s.take(i + 1)) == debug_blocks(s.take(i)) + s[i].debug_text@ + "\n\n"@,
{
    let t = s.take(i + 1);
    assert(t.drop_last() =~= s.take(i));
    assert(t.last() == s[i]);
}

/// An ordered aggregate of underlying errors in causal/insertion order.
///
/// `cv` is the mathematical model: the sequence of reports the chain holds.
/// `kept` says what a freshly wrapped report contributes to that model — the
/// singleton sequence for every chain that actually stores its errors, the
/// empty sequence for a chain that discards them.
pub trait Chain: Sized {
    /// The stored reports, in insertion order.
    spec fn cv(&self) -> Seq<Report>;

    /// What one wrapped report contributes to the model.
    spec fn kept(err: Report) -> Seq<Report>;

    /// A chain of a single error.
    fn new(err: Report) -> (r: Self)
        ensures
            r.cv() == Self::kept(err),
    ;

    /// Append one error at the tail.
    fn push(self, err: Report) -> (r: Self)
        ensures
            r.cv() == self.cv() + Self::kept(err),
    {
        self.append(Self::new(err))
    }

    /// Concatenate two chains, `self`'s elements first.
    fn append(self, other: Self) -> (r: Self)
        ensures
            r.cv() == self.cv() + other.cv(),
    ;

    /// How many errors the chain holds.
    fn len(&self) -> (n: usize)
        ensures
            n == self.cv().len(),
    ;

    /// The stored error at position `i`.
    fn get(&self, i: usize) -> (r: &Report)
        requires
            i < self.cv().len(),
        ensures
            *r == self.cv()[i as int],
    ;

    /// Render for debugging: a structured list of all elements in alternate
    /// mode, otherwise every element as a block followed by a blank line.
    fn debug_str(&self, alternate: bool) -> (r: String)
        ensures
            r@ == chain_debug_view(self.cv(), alternate),
    {
        let ghost s = self.cv();
        let n = self.len();
        let mut i: usize = 0;
        if alternate {
            let mut acc: String = "[".to_owned();
            while i < n
                invariant
                    i <= n,
                    n == s.len(),
                    self.cv() == s,
                    acc@ == "["@ + debug_list_body(s.take(i as int)),
                decreases n - i,
            {
                proof {
                    lemma_debug_list_step(s, i as int);
                }
                if i > 0 {
                    acc.append(", ");
                }
                acc.append(self.get(i).debug_text.as_str());
                assert(acc@ == "["@ + debug_list_body(s.take(i + 1)));
                i = i + 1;
            }
            assert(s.take(n as int) =~= s);
            acc.append("]");
            acc
        } else {
            let mut acc = String::new();
            assert(acc@ =~= debug_blocks(s.take(0)));
            while i < n
                invariant
                    i <= n,
                    n == s.len(),
                    self.cv() == s,
                    acc@ == debug_blocks(s.take(i as int)),
                decreases n - i,
            {
                proof {
                    lemma_debug_blocks_step(s, i as int);
                }
                acc.append(self.get(i).debug_text.as_str());
                acc.append("\n\n");
                i = i + 1;
            }
            assert(s.take(n as int) =~= s);
            acc
        }
    }

    /// Render for display: only the last stored element's display rendering.
    fn display_str(&self) -> (r: String)
        ensures
            r@ == chain_display_view(self.cv()),
    {
        let n = self.len();
        if n == 0 {
            String::new()
        } else {
            self.get(n - 1).display_text.clone()
        }
    }
}

/// What a dispatch table derives for a report of the given kind: the table's
/// entry, or no bits for an unrecognized kind.
pub open spec fn spec_derive(table: Map<u64, u64>, kind: u64) -> u64 {
    if table.dom().contains(kind) {
        table[kind]
    } else {
        0
    }
}

/// A pure classifier mapping a report's type tag to a tag set.
///
/// The model is a dispatch table from type tags to classification bits;
/// `derive` reads only the report's `kind`, never its renderings, and
/// returns the empty tag set for every unrecognized kind.
pub trait Manager<C: Chain, X: Tags> {
    /// The dispatch table this manager classifies by.
    spec fn table(&self) -> Map<u64, u64>;

    /// Classify one report by its type tag.
    fn derive(&self, err: &Report) -> (r: X)
        ensures
            r.bits() == spec_derive(self.table(), err.kind),
    ;
}

impl<C: Chain, X: Tags, D: Manager<C, X>> Manager<C, X> for &D {
    open spec fn table(&self) -> Map<u64, u64> {
        D::table(*self)
    }

    fn derive(&self, err: &Report) -> (r: X) {
        D::derive(*self, err)
    }
}

/// A manager refinement exposing a shareable default: `global()` yields the
/// process-wide, read-only singleton. Every value of a `GlobalManager` type
/// classifies by the same table (`table_is_global`), which is what makes the
/// singleton safely shareable and the manager-free combinators agree with
/// the explicit-manager ones.
pub trait GlobalManager<C: Chain, X: Tags>: Manager<C, X> + Sized {
    /// The singleton's dispatch table.
    spec fn global_table() -> Map<u64, u64>;

    /// Every value of this type carries the singleton's table: the type is
    /// stateless or read-only after initialization.
    proof fn table_is_global(&self)
        ensures
            self.table() == Self::global_table(),
    ;

    /// The shareable default manager.
    fn global() -> (r: Self)
        ensures
            r.table() == Self::global_table(),
    ;
}

/// The uniform error envelope: one chain of reports paired with one tag set,
/// marked (at compile time only) by the manager type that supplies the
/// implicit default for the manager-free combinators.
///
/// Invariant kept by every combinator: the tags equal the union of every
/// contributing report's derived tags plus any manually added tags, and the
/// chain holds the contributing reports in left-to-right order.
pub struct Error<C: Chain, X: Tags, D: GlobalManager<C, X>> {
    chain: C,
    tags: X,
    manager: core::marker::PhantomData<D>,
}

impl<C: Chain, X: Tags, D: GlobalManager<C, X>> Error<C, X, D> {
    /// The reports the envelope's chain holds.
    pub closed spec fn chain_view(&self) -> Seq<Report> {
        self.chain.cv()
    }

    /// The classification bits the envelope carries.
    pub closed spec fn tags_bits(&self) -> u64 {
        self.tags.bits()
    }

    /// The envelope's chain value.
    pub closed spec fn chain_value(&self) -> C {
        self.chain
    }

    /// The envelope's tag value.
    pub closed spec fn tags_value(&self) -> X {
        self.tags
    }

    /// Wrap a chain with no tags.
    pub fn new(chain: C) -> (r: Self)
        ensures
            r.chain_value() == chain,
            r.tags_bits() == 0,
            r.chain_view() == chain.cv(),
    {
        Self::with_tags(chain, X::empty())
    }

    /// Wrap a chain together with a tag set.
    pub fn with_tags(chain: C, tags: X) -> (r: Self)
        ensures
            r.chain_value() == chain,
            r.tags_value() == tags,
            r.chain_view() == chain.cv(),
            r.tags_bits() == tags.bits(),
    {
        Error { chain, tags, manager: core::marker::PhantomData }
    }

    /// The chain of underlying reports.
    pub fn get_chain(&self) -> (r: &C)
        ensures
            *r == self.chain_value(),
    {
        &self.chain
    }

    /// The carried tag set.
    pub fn get_tags(&self) -> (r: &X)
        ensures
            *r == self.tags_value(),
    {
        &self.tags
    }

    /// Mutable access to the chain; the tags stay as they were.
    pub fn get_chain_mut(&mut self) -> (r: &mut C)
        ensures
            *r == old(self).chain_value(),
            final(self).chain_value() == *final(r),
            final(self).tags_value() == old(self).tags_value(),
    {
        &mut self.chain
    }

    /// Mutable access to the tag set; the chain stays as it was.
    pub fn get_tags_mut(&mut self) -> (r: &mut X)
        ensures
            *r == old(self).tags_value(),
            final(self).tags_value() == *final(r),
            final(self).chain_value() == old(self).chain_value(),
    {
        &mut self.tags
    }

    /// Split the envelope into its chain and its tags.
    pub fn into_parts(self) -> (r: (C, X))
        ensures
            r.0 == self.chain_value(),
            r.1 == self.tags_value(),
    {
        (self.chain, self.tags)
    }

    /// The last report of the chain: the most recent cause, if any.
    pub fn last_report(&self) -> (r: Option<&Report>)
        ensures
            match r {
                Some(rep) => self.chain_view().len() > 0 && *rep == self.chain_view().last(),
                None => self.chain_view().len() == 0,
            },
    {
        let n = self.chain.len();
        if n == 0 {
            None
        } else {
            Some(self.chain.get(n - 1))
        }
    }

    /// What the envelope's debug rendering shows.
    pub open spec fn debug_view(&self, alternate: bool) -> Seq<char> {
        if alternate {
            "Error { chain: "@ + chain_debug_view(self.chain_view(), true) + ", tags: "@
                + self.tags_value().debug_view() + " }"@
        } else {
            chain_debug_view(self.chain_view(), false) + self.tags_value().debug_view()
        }
    }

    /// What the envelope's display rendering shows.
    pub open spec fn display_view(&self) -> Seq<char> {
        chain_display_view(self.chain_view()) + self.tags_value().display_view()
    }

    /// Render for debugging: in alternate mode a structured record of the
    /// chain and the tags, otherwise their debug renderings in sequence.
    pub fn debug_str(&self, alternate: bool) -> (r: String)
        ensures
            r@ == self.debug_view(alternate),
    {
        if alternate {
            let mut acc: String = "Error { chain: ".to_owned();
            acc.append(self.chain.debug_str(true).as_str());
            acc.append(", tags: ");
            acc.append(self.tags.debug_str().as_str());
            acc.append(" }");
            acc
        } else {
            let mut acc = self.chain.debug_str(false);
            acc.append(self.tags.debug_str().as_str());
            acc
        }
    }

    /// Render for display: the chain's display rendering (its last element)
    /// followed by the tags' display rendering.
    pub fn display_str(&self) -> (r: String)
        ensures
            r@ == self.display_view(),
    {
        let mut acc = self.chain.display_str();
        acc.append(self.tags.display_str().as_str());
        acc
    }
}

/// An operand of the combinators: a raw report or an already-built envelope.
///
/// `derived_chain` is the chain contribution an operand makes, and
/// `derived_tags` the classification bits it is given under a manager with
/// the given dispatch table: a raw report contributes a fresh single-element
/// chain and its derived bits; an envelope contributes its own chain and its
/// own tags, untouched by the manager (derivation is idempotent).
pub trait Derivable<C: Chain, X: Tags, D: GlobalManager<C, X>>: Sized {
    /// The classification bits this operand ends up with under a manager
    /// classifying by `table`.
    spec fn derived_tags(self, table: Map<u64, u64>) -> u64;

    /// The chain contribution of this operand.
    spec fn derived_chain(self) -> Seq<Report>;

    /// Classify under an explicit manager and wrap into an envelope; a
    /// passthrough for an operand that already is an envelope.
    fn derive_in<M: Manager<C, X>>(self, manager: M) -> (r: Error<C, X, D>)
        ensures
            r.tags_bits() == self.derived_tags(manager.table()),
            r.chain_view() == self.derived_chain(),
    ;

    /// [`Self::derive_in`] under the type's global manager.
    fn derive(self) -> (r: Error<C, X, D>)
        ensures
            r.tags_bits() == self.derived_tags(D::global_table()),
            r.chain_view() == self.derived_chain(),
    {
        self.derive_in(D::global())
    }
}

/// The chain/tag combinators, defined once over raw reports and over
/// already-built envelopes; either operand shape produces a uniform
/// envelope.
pub trait ErrorExt<C: Chain, X: Tags, D: GlobalManager<C, X>>: Derivable<C, X, D> {
    /// Derive both operands under an explicit manager, union their tags and
    /// concatenate their chains, `self`'s elements first.
    fn chain_in<R: Derivable<C, X, D>, M: Manager<C, X>>(self, rhs: R, manager: M) -> (r: Error<
        C,
        X,
        D,
    >)
        ensures
            r.tags_bits() == (self.derived_tags(manager.table()) | rhs.derived_tags(
                manager.table(),
            )),
            r.chain_view() == self.derived_chain() + rhs.derived_chain(),
    ;

    /// Derive under an explicit manager, then union in the caller-supplied
    /// tags; only the added bits bypass derivation.
    fn tag_in<M: Manager<C, X>>(self, tags: X, manager: M) -> (r: Error<C, X, D>)
        ensures
            r.tags_bits() == (self.derived_tags(manager.table()) | tags.bits()),
            r.chain_view() == self.derived_chain(),
    ;

    /// [`Self::chain_in`] under the type's global manager.
    fn chain<R: Derivable<C, X, D>>(self, rhs: R) -> (r: Error<C, X, D>)
        ensures
            r.tags_bits() == (self.derived_tags(D::global_table()) | rhs.derived_tags(
                D::global_table(),
            )),
            r.chain_view() == self.derived_chain() + rhs.derived_chain(),
    {
        self.chain_in(rhs, D::global())
    }

    /// [`Self::tag_in`] under the type's global manager.
    fn tag(self, tags: X) -> (r: Error<C, X, D>)
        ensures
            r.tags_bits() == (self.derived_tags(D::global_table()) | tags.bits()),
            r.chain_view() == self.derived_chain(),
    {
        self.tag_in(tags, D::global())
    }
}

impl<C: Chain, X: Tags, D: GlobalManager<C, X>> Derivable<C, X, D> for Error<C, X, D> {
    open spec fn derived_tags(self, table: Map<u64, u64>) -> u64 {
        self.tags_bits()
    }

    open spec fn derived_chain(self) -> Seq<Report> {
        self.chain_view()
    }

    fn derive_in<M: Manager<C, X>>(self, manager: M) -> (r: Error<C, X, D>)
        ensures
            r == self,
    {
        self
    }
}

impl<C: Chain, X: Tags, D: GlobalManager<C, X>> ErrorExt<C, X, D> for Error<C, X, D> {
    fn chain_in<R: Derivable<C, X, D>, M: Manager<C, X>>(self, rhs: R, manager: M) -> (r: Error<
        C,
        X,
        D,
    >) {
        let (chain, tags) = self.into_parts();
        let (rhs_chain, rhs_tags) = rhs.derive_in(manager).into_parts();
        Error::with_tags(chain.append(rhs_chain), tags.union(rhs_tags))
    }

    fn tag_in<M: Manager<C, X>>(self, tags: X, manager: M) -> (r: Error<C, X, D>)
        ensures
            r.chain_value() == self.chain_value(),
    {
        let (chain, own) = self.into_parts();
        Error::with_tags(chain, own.union(tags))
    }
}

impl<C: Chain, X: Tags, D: GlobalManager<C, X>> Derivable<C, X, D> for Report {
    open spec fn derived_tags(self, table: Map<u64, u64>) -> u64 {
        spec_derive(table, self.kind)
    }

    open spec fn derived_chain(self) -> Seq<Report> {
        C::kept(self)
    }

    fn derive_in<M: Manager<C, X>>(self, manager: M) -> (r: Error<C, X, D>) {
        let tags: X = manager.derive(&self);
        let chain = C::new(self);
        Error::with_tags(chain, tags)
    }
}

/// The combinators lifted to the failure channel of a `Result`: a success
/// value passes through unchanged, a failure is derived, chained or tagged.
/// The `_with` forms compute the right-hand operand lazily, only when the
/// left side has actually failed.
pub trait ResultExt<C: Chain, X: Tags, D: GlobalManager<C, X>>: Sized {
    /// The success type.
    type Ok;

    /// The failure type: any combinator operand.
    type Err: ErrorExt<C, X, D>;

    /// The value as a plain `Result`.
    spec fn res_view(self) -> Result<Self::Ok, Self::Err>;

    /// Derive the failure under an explicit manager.
    fn derive_err_in<M: Manager<C, X>>(self, manager: M) -> (r: Result<Self::Ok, Error<C, X, D>>)
        ensures
            self.res_view() matches Ok(t) ==> r matches Ok(v) && v == t,
            self.res_view() matches Err(e) ==> r matches Err(env) && env.tags_bits()
                == e.derived_tags(manager.table()) && env.chain_view() == e.derived_chain(),
    ;

    /// Chain `rhs` onto the failure under an explicit manager.
    fn chain_err_in<R: Derivable<C, X, D>, M: Manager<C, X>>(self, rhs: R, manager: M) -> (r:
        Result<Self::Ok, Error<C, X, D>>)
        ensures
            self.res_view() matches Ok(t) ==> r matches Ok(v) && v == t,
            self.res_view() matches Err(e) ==> r matches Err(env) && env.tags_bits() == (
            e.derived_tags(manager.table()) | rhs.derived_tags(manager.table()))
                && env.chain_view() == e.derived_chain() + rhs.derived_chain(),
    ;

    /// Tag the failure under an explicit manager.
    fn tag_err_in<M: Manager<C, X>>(self, tags: X, manager: M) -> (r: Result<
        Self::Ok,
        Error<C, X, D>,
    >)
        ensures
            self.res_view() matches Ok(t) ==> r matches Ok(v) && v == t,
            self.res_view() matches Err(e) ==> r matches Err(env) && env.tags_bits() == (
            e.derived_tags(manager.table()) | tags.bits()) && env.chain_view()
                == e.derived_chain(),
    ;

    /// Chain a lazily computed `rhs` onto the failure under an explicit
    /// manager; the operand is computed only on failure.
    fn chain_err_with_in<R: Derivable<C, X, D>, M: Manager<C, X>, F: FnOnce() -> R>(
        self,
        manager: M,
        rhs_f: F,
    ) -> (r: Result<Self::Ok, Error<C, X, D>>)
        requires
            self.res_view() is Err ==> call_requires(rhs_f, ()),
        ensures
            self.res_view() matches Ok(t) ==> r matches Ok(v) && v == t,
            self.res_view() matches Err(e) ==> r matches Err(env) && exists|rv: R|
                call_ensures(rhs_f, (), rv) && env.tags_bits() == (e.derived_tags(manager.table())
                    | rv.derived_tags(manager.table())) && env.chain_view() == e.derived_chain()
                    + rv.derived_chain(),
    ;

    /// Tag the failure with lazily computed tags under an explicit manager;
    /// the tags are computed only on failure.
    fn tag_err_with_in<M: Manager<C, X>, F: FnOnce() -> X>(self, manager: M, tags_f: F) -> (r:
        Result<Self::Ok, Error<C, X, D>>)
        requires
            self.res_view() is Err ==> call_requires(tags_f, ()),
        ensures
            self.res_view() matches Ok(t) ==> r matches Ok(v) && v == t,
            self.res_view() matches Err(e) ==> r matches Err(env) && exists|tv: X|
                call_ensures(tags_f, (), tv) && env.tags_bits() == (e.derived_tags(manager.table())
                    | tv.bits()) && env.chain_view() == e.derived_chain(),
    ;

    /// [`Self::derive_err_in`] under the type's global manager.
    fn derive_err(self) -> (r: Result<Self::Ok, Error<C, X, D>>)
        ensures
            self.res_view() matches Ok(t) ==> r matches Ok(v) && v == t,
            self.res_view() matches Err(e) ==> r matches Err(env) && env.tags_bits()
                == e.derived_tags(D::global_table()) && env.chain_view() == e.derived_chain(),
    {
        self.derive_err_in(D::global())
    }

    /// [`Self::chain_err_in`] under the type's global manager.
    fn chain_err<R: Derivable<C, X, D>>(self, rhs: R) -> (r: Result<Self::Ok, Error<C, X, D>>)
        ensures
            self.res_view() matches Ok(t) ==> r matches Ok(v) && v == t,
            self.res_view() matches Err(e) ==> r matches Err(env) && env.tags_bits() == (
            e.derived_tags(D::global_table()) | rhs.derived_tags(D::global_table()))
                && env.chain_view() == e.derived_chain() + rhs.derived_chain(),
    {
        self.chain_err_in(rhs, D::global())
    }

    /// [`Self::tag_err_in`] under the type's global manager.
    fn tag_err(self, tags: X) -> (r: Result<Self::Ok, Error<C, X, D>>)
        ensures
            self.res_view() matches Ok(t) ==> r matches Ok(v) && v == t,
            self.res_view() matches Err(e) ==> r matches Err(env) && env.tags_bits() == (
            e.derived_tags(D::global_table()) | tags.bits()) && env.chain_view()
                == e.derived_chain(),
    {
        self.tag_err_in(tags, D::global())
    }

    /// [`Self::chain_err_with_in`] under the type's global manager.
    fn chain_err_with<R: Derivable<C, X, D>, F: FnOnce() -> R>(self, rhs_f: F) -> (r: Result<
        Self::Ok,
        Error<C, X, D>,
    >)
        requires
            self.res_view() is Err ==> call_requires(rhs_f, ()),
        ensures
            self.res_view() matches Ok(t) ==> r matches Ok(v) && v == t,
            self.res_view() matches Err(e) ==> r matches Err(env) && exists|rv: R|
                call_ensures(rhs_f, (), rv) && env.tags_bits() == (e.derived_tags(
                    D::global_table(),
                ) | rv.derived_tags(D::global_table())) && env.chain_view() == e.derived_chain()
                    + rv.derived_chain(),
    {
        self.chain_err_with_in(D::global(), rhs_f)
    }

    /// [`Self::tag_err_with_in`] under the type's global manager.
    fn tag_err_with<F: FnOnce() -> X>(self, tags_f: F) -> (r: Result<Self::Ok, Error<C, X, D>>)
        requires
            self.res_view() is Err ==> call_requires(tags_f, ()),
        ensures
            self.res_view() matches Ok(t) ==> r matches Ok(v) && v == t,
            self.res_view() matches Err(e) ==> r matches Err(env) && exists|tv: X|
                call_ensures(tags_f, (), tv) && env.tags_bits() == (e.derived_tags(
                    D::global_table(),
                ) | tv.bits()) && env.chain_view() == e.derived_chain(),
    {
        self.tag_err_with_in(D::global(), tags_f)
    }
}

impl<C: Chain, X: Tags, D: GlobalManager<C, X>, T, E: ErrorExt<C, X, D>> ResultExt<C, X, D> for Result<
    T,
    E,
> {
    type Ok = T;

    type Err = E;

    open spec fn res_view(self) -> Result<T, E> {
        self
    }

    fn derive_err_in<M: Manager<C, X>>(self, manager: M) -> (r: Result<T, Error<C, X, D>>) {
        match self {
            Ok(t) => Ok(t),
            Err(e) => Err(e.derive_in(manager)),
        }
    }

    fn chain_err_in<R: Derivable<C, X, D>, M: Manager<C, X>>(self, rhs: R, manager: M) -> (r:
        Result<T, Error<C, X, D>>) {
        match self {
            Ok(t) => Ok(t),
            Err(e) => Err(e.chain_in(rhs, manager)),
        }
    }

    fn tag_err_in<M: Manager<C, X>>(self, tags: X, manager: M) -> (r: Result<T, Error<C, X, D>>) {
        match self {
            Ok(t) => Ok(t),
            Err(e) => Err(e.tag_in(tags, manager)),
        }
    }

    fn chain_err_with_in<R: Derivable<C, X, D>, M: Manager<C, X>, F: FnOnce() -> R>(
        self,
        manager: M,
        rhs_f: F,
    ) -> (r: Result<T, Error<C, X, D>>) {
        match self {
            Ok(t) => Ok(t),
            Err(e) => Err(e.chain_in(rhs_f(), manager)),
        }
    }

    fn tag_err_with_in<M: Manager<C, X>, F: FnOnce() -> X>(self, manager: M, tags_f: F) -> (r:
        Result<T, Error<C, X, D>>) {
        match self {
            Ok(t) => Ok(t),
            Err(e) => Err(e.tag_in(tags_f(), manager)),
        }
    }
}

impl<C: Chain, X: Tags, D: GlobalManager<C, X>> ErrorExt<C, X, D> for Report {
    fn chain_in<R: Derivable<C, X, D>, M: Manager<C, X>>(self, rhs: R, manager: M) -> (r: Error<
        C,
        X,
        D,
    >) {
        let tags: X = manager.derive(&self);
        let chain = C::new(self);
        let lhs = Error::with_tags(chain, tags);
        lhs.chain_in(rhs, manager)
    }

    fn tag_in<M: Manager<C, X>>(self, tags: X, manager: M) -> (r: Error<C, X, D>) {
        let derived: X = manager.derive(&self);
        let chain = C::new(self);
        Error::with_tags(chain, derived.union(tags))
    }
}

} // verus!
