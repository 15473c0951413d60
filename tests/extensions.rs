use ppc750cl::ext::{Extension, Extensions};

#[test]
fn insert_sets_prerequisites() {
    let mut e = Extensions::none();
    e.insert(Extension::Vmx128);
    assert!(e.contains(Extension::Vmx128));
    assert!(e.contains(Extension::AltiVec));
    assert_eq!(e.bitmask(), Extension::Vmx128.bitmask());
}

#[test]
fn remove_keeps_prerequisites() {
    let mut e = Extensions::xenon();
    assert!(e.contains(Extension::Ppc64));
    e.insert(Extension::Ppc64);
    e.remove(Extension::Ppc64);
    assert!(!e.contains(Extension::Ppc64));
    assert!(e.contains(Extension::AltiVec));
    assert!(e.contains(Extension::Vmx128));
    e.remove(Extension::Vmx128);
    assert!(!e.contains(Extension::Vmx128));
    assert!(e.contains(Extension::AltiVec));
}

#[test]
fn profiles_and_operators() {
    let g = Extensions::gekko_broadway();
    assert!(g.contains(Extension::PairedSingles));
    assert!(!g.contains(Extension::AltiVec));
    let x = Extensions::xenon();
    assert!(x.contains_all(Extensions::from_extension(Extension::Vmx128)));
    assert!(!x.contains_all(g));
    assert_eq!(g.union(x).bitmask(), g.bitmask() | x.bitmask());
    assert!(g.intersection(x).is_empty());
    assert_eq!(g.complement().bitmask(), !g.bitmask());
    assert_eq!(Extensions::default(), Extensions::none());
    assert_eq!(Extensions::from(Extension::AltiVec), Extensions::from_bitmask(4));
    let mut s = Extensions::none();
    s.set(Extension::PairedSingles, true);
    assert_eq!(s, g);
    s.set(Extension::PairedSingles, false);
    assert!(s.is_empty());
    assert_eq!(Extension::Vmx128.name(), "VMX128");
}

#[test]
fn bit_operators() {
    let g = Extensions::gekko_broadway();
    let x = Extensions::xenon();
    assert_eq!((g | x).bitmask(), 1 | 2 | 4 | 8);
    assert_eq!((x & g).bitmask(), 0);
    assert_eq!((!g).bitmask(), !1u32);
    assert_eq!((Extension::Ppc64 | Extension::Vmx128).bitmask(), 2 | 4 | 8);
    assert_eq!((Extensions::none() | Extension::Vmx128).bitmask(), 12);
    assert_eq!((x & Extension::AltiVec).bitmask(), 4);
    let mut e = Extensions::none();
    e |= Extension::AltiVec;
    assert!(e.contains(Extension::AltiVec));
    e &= Extension::PairedSingles;
    assert!(e.is_empty());
}
