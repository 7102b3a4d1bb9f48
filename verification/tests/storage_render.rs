use errcomp::bitflags::Bitflags;
use errcomp::default::{NoManager, NoTags};
use errcomp::storage::OwnedCell;
use errcomp::{Chain, Error, Report, Tags};

fn rep(kind: u64, name: &str) -> Report {
    Report {
        kind,
        debug_text: format!("{name}-debug"),
        display_text: format!("{name}-display"),
    }
}

type Env = Error<OwnedCell, Bitflags, NoManager>;

#[test]
fn storage_round_trip_through_reallocation() {
    // Low thousands of pushes, so the backing buffer reallocates many times.
    let n: u64 = 3000;
    let mut cell = OwnedCell::new(rep(0, "r0"));
    for kind in 1..n {
        OwnedCell::push(&mut cell, rep(kind, &format!("r{kind}")));
    }
    let s = cell.as_slice();
    assert_eq!(s.len(), n as usize);
    for (i, r) in s.iter().enumerate() {
        assert_eq!(r.kind, i as u64);
        assert_eq!(r.debug_text, format!("r{i}-debug"));
    }
}

#[test]
fn storage_append_transfers_every_handle_once() {
    let n: u64 = 5;
    let k: u64 = 4;
    let mut dst = OwnedCell::new(rep(0, "n0"));
    for kind in 1..n {
        OwnedCell::push(&mut dst, rep(kind, &format!("n{kind}")));
    }
    let mut src = OwnedCell::new(rep(100, "k0"));
    for kind in 101..(100 + k) {
        OwnedCell::push(&mut src, rep(kind, &format!("k{kind}")));
    }
    OwnedCell::append(&mut dst, src);
    let s = dst.as_slice();
    assert_eq!(s.len(), (n + k) as usize);
    // No element is missing, duplicated or reordered.
    for i in 0..n {
        assert_eq!(s[i as usize].kind, i);
    }
    for i in 0..k {
        assert_eq!(s[(n + i) as usize].kind, 100 + i);
    }
}

#[test]
fn chain_debug_and_display_renderings() {
    let c = <OwnedCell as Chain>::new(rep(1, "a"));
    let c = c.push(rep(2, "b"));
    assert_eq!(c.debug_str(true), "[a-debug, b-debug]");
    assert_eq!(c.debug_str(false), "a-debug\n\nb-debug\n\n");
    assert_eq!(c.display_str(), "b-display");
    let single = <OwnedCell as Chain>::new(rep(3, "c"));
    assert_eq!(single.debug_str(true), "[c-debug]");
    assert_eq!(single.display_str(), "c-display");
}

#[test]
fn bitflags_hex_renderings() {
    assert_eq!(Bitflags(0).debug_str(), "0x0");
    assert_eq!(Bitflags(0x5).debug_str(), "0x5");
    assert_eq!(Bitflags(0x2a).debug_str(), "0x2a");
    assert_eq!(Bitflags(0x1234_5678_9abc_def0).debug_str(), "0x123456789abcdef0");
    assert_eq!(Bitflags(u64::MAX).debug_str(), "0xffffffffffffffff");
    assert_eq!(Bitflags(0x10).display_str(), "0x10");
}

#[test]
fn envelope_display_with_no_tags_is_last_element() {
    let cell = <OwnedCell as Chain>::new(rep(1, "x")).push(rep(2, "y"));
    let env: Error<OwnedCell, NoTags, NoManager> = Error::with_tags(cell, NoTags);
    assert_eq!(env.display_str(), "y-display");
}

#[test]
fn envelope_renderings() {
    let cell = <OwnedCell as Chain>::new(rep(1, "a")).push(rep(2, "b"));
    let env: Env = Error::with_tags(cell, Bitflags(0x3));
    assert_eq!(env.debug_str(true), "Error { chain: [a-debug, b-debug], tags: 0x3 }");
    assert_eq!(env.debug_str(false), "a-debug\n\nb-debug\n\n0x3");
    assert_eq!(env.display_str(), "b-display0x3");
}
