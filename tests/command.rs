use snss::{CommandIdType, SessionRestoreIdType, SnssFileType, TabRestoreIdType};

#[test]
fn session_unknown_id() {
    assert_eq!(SessionRestoreIdType::from_u8(200), SessionRestoreIdType::Unknown(200));
    assert_eq!(SessionRestoreIdType::from_u8(3), SessionRestoreIdType::Unknown(3));
    assert_eq!(SessionRestoreIdType::from_u8(254), SessionRestoreIdType::Unknown(254));
}

#[test]
fn session_known_ids() {
    assert_eq!(SessionRestoreIdType::from_u8(0), SessionRestoreIdType::CommandSetTabWindow);
    assert_eq!(SessionRestoreIdType::from_u8(6), SessionRestoreIdType::CommandUpdateTabNavigation);
    assert_eq!(SessionRestoreIdType::from_u8(34), SessionRestoreIdType::CommandAddWindowExtraData);
    assert_eq!(SessionRestoreIdType::from_u8(131), SessionRestoreIdType::EdgeCommandUnknown131);
    assert_eq!(SessionRestoreIdType::from_u8(255), SessionRestoreIdType::UnusedCommand);
}

#[test]
fn tab_ids() {
    assert_eq!(TabRestoreIdType::from_u8(1), TabRestoreIdType::CommandUpdateTabNavigation);
    assert_eq!(TabRestoreIdType::from_u8(14), TabRestoreIdType::CommandAddTabExtraData);
    assert_eq!(TabRestoreIdType::from_u8(15), TabRestoreIdType::Unknown(15));
    assert_eq!(TabRestoreIdType::from_u8(0), TabRestoreIdType::Unknown(0));
    assert_eq!(TabRestoreIdType::from_u8(255), TabRestoreIdType::UnusedCommand);
}

#[test]
fn resolve_by_file_type() {
    let s = CommandIdType::resolve(SnssFileType::Session, 6);
    assert_eq!(s, CommandIdType::Session(SessionRestoreIdType::CommandUpdateTabNavigation));
    assert!(s.is_navigation_update());
    let t = CommandIdType::resolve(SnssFileType::Tab, 6);
    assert_eq!(t, CommandIdType::Tab(TabRestoreIdType::CommandSetExtensionAppID));
    assert!(!t.is_navigation_update());
    assert!(CommandIdType::resolve(SnssFileType::Tab, 1).is_navigation_update());
    assert!(!CommandIdType::Invalid.is_navigation_update());
}

#[test]
fn file_type_names() {
    assert_eq!(SnssFileType::Session.name(), "Session");
    assert_eq!(SnssFileType::Tab.name(), "Tab");
}
