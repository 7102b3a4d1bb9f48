use errcomp::bitflags::Bitflags;
use errcomp::default::{NoChain, NoManager, NoTags};
use errcomp::storage::OwnedCell;
use errcomp::table::TableManager;
use errcomp::{Chain, Derivable, Error, ErrorExt, Report, ResultExt, Tags};

fn rep(kind: u64, name: &str) -> Report {
    Report {
        kind,
        debug_text: format!("{name}-debug"),
        display_text: format!("{name}-display"),
    }
}

type Env = Error<OwnedCell, Bitflags, NoManager>;

fn xy_manager() -> TableManager {
    let mut mgr = TableManager::new();
    mgr.register(10, 0x1);
    mgr.register(11, 0x2);
    mgr
}

#[test]
fn tagset_union_identity() {
    let a = Bitflags(0b1011);
    assert_eq!(a.union(Bitflags::empty()).0, a.0);
    assert_eq!(Bitflags::empty().union(a).0, a.0);
}

#[test]
fn tagset_union_commutative() {
    let a = Bitflags(0b0110);
    let b = Bitflags(0b1100);
    assert_eq!(a.union(b).0, b.union(a).0);
}

#[test]
fn tagset_union_associative() {
    let a = Bitflags(0x1);
    let b = Bitflags(0x6);
    let c = Bitflags(0x18);
    assert_eq!(a.union(b).union(c).0, a.union(b.union(c)).0);
    assert_eq!(a.union(b).union(c).0, 0x1f);
}

#[test]
fn tagset_union_idempotent() {
    let a = Bitflags(0x2a);
    assert_eq!(a.union(a).0, a.0);
}

#[test]
fn chain_push_order() {
    let c = <OwnedCell as Chain>::new(rep(1, "e1"));
    let c = c.push(rep(2, "e2"));
    let c = c.push(rep(3, "e3"));
    let s = c.as_slice();
    assert_eq!(s.len(), 3);
    assert_eq!(s[0].kind, 1);
    assert_eq!(s[1].kind, 2);
    assert_eq!(s[2].kind, 3);
    assert_eq!(s[0].debug_text, "e1-debug");
    assert_eq!(s[2].display_text, "e3-display");
}

#[test]
fn chain_append_order() {
    let a = <OwnedCell as Chain>::new(rep(1, "e1"));
    let b = <OwnedCell as Chain>::new(rep(2, "e2"));
    let joined = a.append(b);
    let s = joined.as_slice();
    assert_eq!(s.len(), 2);
    assert_eq!(s[0].kind, 1);
    assert_eq!(s[1].kind, 2);
}

#[test]
fn derive_assigns_recognized_bits() {
    let mgr = xy_manager();
    let env: Env = rep(10, "x").derive_in(&mgr);
    assert_eq!(env.get_tags().0, 0x1);
    assert_eq!(env.get_chain().as_slice().len(), 1);
}

#[test]
fn derive_unrecognized_is_empty() {
    let mgr = xy_manager();
    let env: Env = rep(99, "stranger").derive_in(&mgr);
    assert_eq!(env.get_tags().0, 0);
    assert_eq!(env.get_chain().as_slice().len(), 1);
    assert_eq!(env.get_chain().as_slice()[0].kind, 99);
}

#[test]
fn derive_idempotent_on_envelope() {
    let mgr = xy_manager();
    let env: Env = rep(10, "x").derive_in(&mgr);
    let env = env.tag_in(Bitflags(0x8), &mgr);
    let tags_before = env.get_tags().0;
    let kinds_before: Vec<u64> = env.get_chain().as_slice().iter().map(|r| r.kind).collect();
    let env = env.derive_in(&mgr);
    assert_eq!(env.get_tags().0, tags_before);
    let kinds_after: Vec<u64> = env.get_chain().as_slice().iter().map(|r| r.kind).collect();
    assert_eq!(kinds_after, kinds_before);
}

#[test]
fn chain_in_unions_tags_and_concatenates() {
    let mgr = xy_manager();
    let env: Env = rep(10, "x").chain_in(rep(11, "y"), &mgr);
    assert_eq!(env.get_tags().0, 0x3);
    let s = env.get_chain().as_slice();
    assert_eq!(s.len(), 2);
    assert_eq!(s[0].kind, 10);
    assert_eq!(s[1].kind, 11);
    assert_eq!(env.get_chain().display_str(), "y-display");
    assert_eq!(env.get_chain().debug_str(true), "[x-debug, y-debug]");
}

#[test]
fn chain_in_composes_two_envelopes() {
    let mgr = xy_manager();
    let lhs: Env = rep(10, "x").derive_in(&mgr);
    let rhs: Env = rep(11, "y").derive_in(&mgr);
    let env = lhs.chain_in(rhs, &mgr);
    assert_eq!(env.get_tags().0, 0x3);
    let s = env.get_chain().as_slice();
    assert_eq!(s.len(), 2);
    assert_eq!(s[0].kind, 10);
    assert_eq!(s[1].kind, 11);
}

#[test]
fn tag_in_adds_explicit_bits() {
    let mgr = xy_manager();
    let env: Env = rep(10, "x").tag_in(Bitflags(0x4), &mgr);
    assert_eq!(env.get_tags().0, 0x5);
    let s = env.get_chain().as_slice();
    assert_eq!(s.len(), 1);
    assert_eq!(s[0].kind, 10);
}

#[test]
fn tag_in_on_envelope_keeps_chain() {
    let mgr = xy_manager();
    let cell = OwnedCell::new(rep(7, "z"));
    let env: Env = Error::with_tags(cell, Bitflags(0x1));
    let env = env.tag_in(Bitflags(0x4), &mgr);
    assert_eq!(env.get_tags().0, 0x5);
    let s = env.get_chain().as_slice();
    assert_eq!(s.len(), 1);
    assert_eq!(s[0].kind, 7);
}

#[test]
fn global_and_explicit_manager_agree() {
    // NoManager is its own global manager: the manager-free combinators and
    // the explicit-manager ones must build the same envelope.
    let a: Env = rep(10, "x").derive();
    let b: Env = rep(10, "x").derive_in(NoManager);
    assert_eq!(a.get_tags().0, b.get_tags().0);
    assert_eq!(a.get_chain().as_slice().len(), b.get_chain().as_slice().len());
    assert_eq!(a.get_chain().as_slice()[0].kind, b.get_chain().as_slice()[0].kind);

    let c: Env = rep(10, "x").chain(rep(11, "y"));
    let d: Env = rep(10, "x").chain_in(rep(11, "y"), NoManager);
    assert_eq!(c.get_tags().0, d.get_tags().0);
    let cs = c.get_chain().as_slice();
    let ds = d.get_chain().as_slice();
    assert_eq!(cs.len(), 2);
    assert_eq!(ds.len(), 2);
    assert_eq!(cs[1].kind, ds[1].kind);

    let e: Env = rep(10, "x").tag(Bitflags(0x4));
    let f: Env = rep(10, "x").tag_in(Bitflags(0x4), NoManager);
    assert_eq!(e.get_tags().0, 0x4);
    assert_eq!(e.get_tags().0, f.get_tags().0);
}

#[test]
fn envelope_accessors() {
    let mgr = xy_manager();
    let env: Env = rep(10, "x").derive_in(&mgr);
    assert_eq!(env.last_report().unwrap().kind, 10);
    let (chain, tags) = env.into_parts();
    assert_eq!(tags.0, 0x1);
    assert_eq!(chain.as_slice().len(), 1);

    let env2: Env = Error::new(OwnedCell::new(rep(5, "w")));
    assert_eq!(env2.get_tags().0, 0);
}

#[test]
fn envelope_mut_accessors() {
    let mut env: Env = Error::new(OwnedCell::new(rep(5, "w")));
    env.get_chain_mut().push(rep(6, "v"));
    assert_eq!(env.get_chain().as_slice().len(), 2);
    assert_eq!(env.get_chain().as_slice()[1].kind, 6);
    let replaced = std::mem::replace(env.get_tags_mut(), Bitflags(0x9));
    assert_eq!(replaced.0, 0);
    assert_eq!(env.get_tags().0, 0x9);
}

#[test]
fn table_manager_later_registration_overrides() {
    let mut mgr = TableManager::new();
    mgr.register(1, 0x2);
    mgr.register(1, 0x4);
    let env: Env = rep(1, "x").derive_in(&mgr);
    assert_eq!(env.get_tags().0, 0x4);
}

#[test]
fn no_chain_discards_and_no_tags_stays_empty() {
    let c = <NoChain as Chain>::new(rep(1, "e1"));
    let c = c.push(rep(2, "e2"));
    assert_eq!(c.len(), 0);
    assert_eq!(c.display_str(), "");
    assert_eq!(c.debug_str(true), "[]");
    assert_eq!(c.debug_str(false), "");
    let t = NoTags::empty().union(NoTags::empty());
    assert_eq!(t.debug_str(), "");
    assert_eq!(t.display_str(), "");
}

#[test]
fn option_chain_fills_and_concatenates() {
    let none: Option<OwnedCell> = None;
    let c = none.push(rep(1, "e1"));
    assert_eq!(c.len(), 1);
    let lhs: Option<OwnedCell> = Some(<OwnedCell as Chain>::new(rep(1, "e1")));
    let rhs: Option<OwnedCell> = None;
    let joined = lhs.append(rhs);
    assert_eq!(joined.len(), 1);
    let both = joined.append(Some(<OwnedCell as Chain>::new(rep(2, "e2"))));
    assert_eq!(both.len(), 2);
    assert_eq!(both.get(0).kind, 1);
    assert_eq!(both.get(1).kind, 2);
    let empty = <Option<OwnedCell> as Chain>::new(rep(9, "z")).append(None);
    assert_eq!(empty.len(), 1);
}

#[test]
fn result_ok_passes_through() {
    let mgr = xy_manager();
    let ok: Result<u32, Report> = Ok(42);
    let r: Result<u32, Env> = ok.derive_err_in(&mgr);
    assert_eq!(r.ok().unwrap(), 42);
    let ok2: Result<u32, Report> = Ok(7);
    let r2: Result<u32, Env> = ok2.chain_err_in(rep(11, "y"), &mgr);
    assert_eq!(r2.ok().unwrap(), 7);
    let ok3: Result<u32, Report> = Ok(9);
    let r3: Result<u32, Env> = ok3.tag_err_in(Bitflags(0x4), &mgr);
    assert_eq!(r3.ok().unwrap(), 9);
}

#[test]
fn result_err_is_composed() {
    let mgr = xy_manager();
    let bad: Result<u32, Report> = Err(rep(10, "x"));
    let r: Result<u32, Env> = bad.chain_err_in(rep(11, "y"), &mgr);
    let env = r.err().unwrap();
    assert_eq!(env.get_tags().0, 0x3);
    assert_eq!(env.get_chain().as_slice().len(), 2);

    let bad2: Result<u32, Report> = Err(rep(10, "x"));
    let r2: Result<u32, Env> = bad2.tag_err_in(Bitflags(0x4), &mgr);
    assert_eq!(r2.err().unwrap().get_tags().0, 0x5);

    let bad3: Result<u32, Report> = Err(rep(11, "y"));
    let r3: Result<u32, Env> = bad3.derive_err();
    assert_eq!(r3.err().unwrap().get_tags().0, 0);
}

#[test]
fn result_lazy_operand_unused_on_success() {
    let mgr = xy_manager();
    let ok: Result<u32, Report> = Ok(1);
    let r: Result<u32, Env> = ok.chain_err_with_in(&mgr, || -> Report {
        panic!("the lazy operand must not be computed for a success")
    });
    assert_eq!(r.ok().unwrap(), 1);
    let ok2: Result<u32, Report> = Ok(2);
    let r2: Result<u32, Env> = ok2.tag_err_with_in(&mgr, || -> Bitflags {
        panic!("the lazy tags must not be computed for a success")
    });
    assert_eq!(r2.ok().unwrap(), 2);
}

#[test]
fn result_lazy_operand_used_on_failure() {
    let mgr = xy_manager();
    let bad: Result<u32, Report> = Err(rep(10, "x"));
    let r: Result<u32, Env> = bad.chain_err_with_in(&mgr, || rep(11, "y"));
    let env = r.err().unwrap();
    assert_eq!(env.get_tags().0, 0x3);
    assert_eq!(env.get_chain().as_slice().len(), 2);

    let bad2: Result<u32, Report> = Err(rep(10, "x"));
    let r2: Result<u32, Env> = bad2.tag_err_with(|| Bitflags(0x4));
    assert_eq!(r2.err().unwrap().get_tags().0, 0x4);

    let bad3: Result<u32, Report> = Err(rep(10, "x"));
    let r3: Result<u32, Env> = bad3.chain_err_with(|| rep(11, "y"));
    assert_eq!(r3.err().unwrap().get_chain().as_slice().len(), 2);

    let bad4: Result<u32, Report> = Err(rep(10, "x"));
    let r4: Result<u32, Env> = bad4.chain_err(rep(11, "y"));
    assert_eq!(r4.err().unwrap().get_chain().as_slice().len(), 2);

    let bad5: Result<u32, Report> = Err(rep(10, "x"));
    let r5: Result<u32, Env> = bad5.tag_err(Bitflags(0x8));
    assert_eq!(r5.err().unwrap().get_tags().0, 0x8);
}
