use snss::{CoreTransition, PageTransition, Qualifier, QualifierFlag};

#[test]
fn typed_has_no_qualifiers() {
    let t = PageTransition::new(0x0000_0001);
    assert_eq!(t.core_transition, CoreTransition::Typed);
    assert!(t.qualifiers.is_empty());
    assert_eq!(t.qualifiers.bits(), 0);
    assert_eq!(t.value, 1);
}

#[test]
fn auto_toplevel_with_redirects() {
    let t = PageTransition::new(0xC000_0006);
    assert_eq!(t.core_transition, CoreTransition::AutoToplevel);
    assert!(t.qualifiers.contains(QualifierFlag::ClientRedirect));
    assert!(t.qualifiers.contains(QualifierFlag::ServerRedirect));
    assert!(!t.qualifiers.contains(QualifierFlag::ChainEnd));
    assert!(!t.qualifiers.contains(QualifierFlag::Blocked));
    assert_eq!(t.qualifiers.bits(), 0xC000_0000);
}

#[test]
fn unknown_low_byte() {
    assert_eq!(CoreTransition::from_u32(11), CoreTransition::Unknown);
    assert_eq!(CoreTransition::from_u32(0x0100_00FF), CoreTransition::Unknown);
    assert_eq!(CoreTransition::from_u32(0x3000_000A), CoreTransition::KeywordGenerated);
    assert_eq!(CoreTransition::from_u32(0), CoreTransition::Link);
}

#[test]
fn unnamed_bits_are_dropped() {
    let q = Qualifier::from_u32(0x0080_FFFF);
    assert_eq!(q.bits(), 0x0080_0000);
    assert!(q.contains(QualifierFlag::Blocked));
    assert!(!q.is_empty());
    assert!(Qualifier::from_u32(0x007F_FFFF).is_empty());
}

#[test]
fn flag_bits() {
    assert_eq!(QualifierFlag::Blocked.bit(), 0x0080_0000);
    assert_eq!(QualifierFlag::ForwardBack.bit(), 0x0100_0000);
    assert_eq!(QualifierFlag::ServerRedirect.bit(), 0x8000_0000);
}

#[test]
fn core_transition_names() {
    assert_eq!(CoreTransition::AutoToplevel.name(), "AutoToplevel");
    assert_eq!(CoreTransition::Unknown.name(), "Unknown");
}
