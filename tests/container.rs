use snss::{
    CommandIdType, CoreTransition, PickleError, SessionCommand, SessionRestoreIdType, SnssError,
    SnssFile, SnssFileType, TabRestoreIdType, Timestamp,
};

fn pad(out: &mut Vec<u8>) {
    while out.len() % 4 != 0 {
        out.push(0);
    }
}

fn push_i32(out: &mut Vec<u8>, v: i32) {
    out.extend_from_slice(&v.to_le_bytes());
}

fn push_i64(out: &mut Vec<u8>, v: i64) {
    out.extend_from_slice(&v.to_le_bytes());
}

fn push_string(out: &mut Vec<u8>, s: &str) {
    out.extend_from_slice(&(s.len() as u32).to_le_bytes());
    out.extend_from_slice(s.as_bytes());
    pad(out);
}

fn push_string16(out: &mut Vec<u8>, s: &str) {
    let units: Vec<u16> = s.encode_utf16().collect();
    out.extend_from_slice(&(units.len() as u32).to_le_bytes());
    for u in units {
        out.extend_from_slice(&u.to_le_bytes());
    }
    pad(out);
}

/// The required fields of a navigation entry, as a pickle body.
fn required_fields(session_id: i32, index: i32, url: &str, title: &str, transition: u32, type_mask: u32) -> Vec<u8> {
    let mut body = Vec::new();
    push_i32(&mut body, session_id);
    push_i32(&mut body, index);
    push_string(&mut body, url);
    push_string16(&mut body, title);
    push_i32(&mut body, 0);
    body.extend_from_slice(&transition.to_le_bytes());
    body.extend_from_slice(&type_mask.to_le_bytes());
    body
}

/// A record holding command `id` and a pickle with `body`.
fn pickled_record(id: u8, body: &[u8]) -> Vec<u8> {
    let mut payload = vec![id];
    payload.extend_from_slice(&(body.len() as u32).to_le_bytes());
    payload.extend_from_slice(body);
    raw_record(&payload)
}

fn raw_record(payload: &[u8]) -> Vec<u8> {
    let mut rec = (payload.len() as u16).to_le_bytes().to_vec();
    rec.extend_from_slice(payload);
    rec
}

fn container(version: u32, records: &[Vec<u8>]) -> Vec<u8> {
    let mut data = b"SNSS".to_vec();
    data.extend_from_slice(&version.to_le_bytes());
    for r in records {
        data.extend_from_slice(r);
    }
    data
}

#[test]
fn bad_magic_is_rejected() {
    let mut data = b"SNSX".to_vec();
    data.extend_from_slice(&3u32.to_le_bytes());
    assert!(matches!(SnssFile::new(SnssFileType::Session, data), Err(SnssError::InvalidMagic)));
    assert!(matches!(SnssFile::new(SnssFileType::Session, b"SN".to_vec()), Err(SnssError::InvalidMagic)));
}

#[test]
fn version_two_is_unsupported() {
    let data = container(2, &[]);
    assert!(matches!(SnssFile::new(SnssFileType::Session, data), Err(SnssError::UnsupportedVersion)));
}

#[test]
fn versions_one_and_three_are_accepted() {
    let f1 = SnssFile::new(SnssFileType::Session, container(1, &[])).unwrap();
    assert_eq!(f1.version(), 1);
    assert_eq!(f1.cursor(), 8);
    let f3 = SnssFile::new(SnssFileType::Tab, container(3, &[])).unwrap();
    assert_eq!(f3.version(), 3);
    assert_eq!(f3.file_type(), SnssFileType::Tab);
}

#[test]
fn header_cut_short() {
    assert!(matches!(SnssFile::new(SnssFileType::Session, b"SNSS\x01".to_vec()), Err(SnssError::IoError)));
}

#[test]
fn end_to_end_single_navigation() {
    let body = required_fields(1, 0, "http://x", "x", 1, 0);
    let data = container(3, &[pickled_record(6, &body)]);
    let mut f = SnssFile::new(SnssFileType::Session, data).unwrap();
    match f.get_next_session_command() {
        Ok(SessionCommand::NavigationEntry(e)) => {
            assert_eq!(e.session_id, 1);
            assert_eq!(e.index, 0);
            assert_eq!(e.url, "http://x");
            assert_eq!(e.title, "x");
            assert!(e.page_state_raw.is_empty());
            assert_eq!(e.transition_type.core_transition, CoreTransition::Typed);
            assert_eq!(e.type_mask, 0);
        }
        other => panic!("expected a navigation entry, got {:?}", other),
    }
    assert!(matches!(f.get_next_session_command(), Ok(SessionCommand::EOF)));
}

#[test]
fn truncated_after_type_mask_has_no_tail() {
    let body = required_fields(7, 2, "https://a.example/", "T", 0x0100_0008, 1);
    let data = container(1, &[pickled_record(6, &body)]);
    let mut f = SnssFile::new(SnssFileType::Session, data).unwrap();
    match f.get_next_session_command() {
        Ok(SessionCommand::NavigationEntry(e)) => {
            assert_eq!(e.session_id, 7);
            assert_eq!(e.index, 2);
            assert_eq!(e.url, "https://a.example/");
            assert_eq!(e.title, "T");
            assert_eq!(e.transition_type.core_transition, CoreTransition::Reload);
            assert_eq!(e.type_mask, 1);
            assert!(e.referrer_url.is_none());
            assert!(e.unknown.is_none());
            assert!(e.original_request_url.is_none());
            assert!(e.is_overriding_user_agent.is_none());
            assert!(e.timestamp.is_none());
            assert!(e.search_terms.is_none());
            assert!(e.http_status.is_none());
            assert!(e.referrer_policy.is_none());
            assert!(e.extended_map.is_none());
            assert!(e.task_id.is_none());
            assert!(e.parent_task_id.is_none());
            assert!(e.root_task_id.is_none());
            assert!(e.child_task_id_count.is_none());
            assert!(e.has_post_data());
        }
        other => panic!("expected a navigation entry, got {:?}", other),
    }
}

#[test]
fn full_tail_is_decoded() {
    let mut body = required_fields(1, 3, "http://x", "x", 0x0000_0000, 0);
    push_string(&mut body, "http://ref/");
    push_i32(&mut body, 0);
    push_string(&mut body, "http://orig/");
    push_i32(&mut body, 1);
    push_i64(&mut body, 1_600_000_000_000_000);
    push_string16(&mut body, "query");
    push_i32(&mut body, 200);
    push_i32(&mut body, 2);
    push_i32(&mut body, 3);
    push_string(&mut body, "a");
    push_string(&mut body, "1");
    push_string(&mut body, "b");
    push_string(&mut body, "2");
    push_string(&mut body, "a");
    push_string(&mut body, "3");
    push_i64(&mut body, 11);
    push_i64(&mut body, 12);
    push_i64(&mut body, 13);
    push_i32(&mut body, 4);
    let data = container(3, &[pickled_record(6, &body)]);
    let mut f = SnssFile::new(SnssFileType::Session, data).unwrap();
    match f.get_next_session_command() {
        Ok(SessionCommand::NavigationEntry(e)) => {
            assert_eq!(e.referrer_url.as_deref(), Some("http://ref/"));
            assert_eq!(e.unknown, Some(0));
            assert_eq!(e.original_request_url.as_deref(), Some("http://orig/"));
            assert_eq!(e.is_overriding_user_agent, Some(true));
            assert_eq!(e.timestamp, Some(Timestamp { micros_since_epoch: 1_600_000_000_000_000 }));
            assert_eq!(e.search_terms.as_deref(), Some("query"));
            assert_eq!(e.http_status, Some(200));
            assert_eq!(e.referrer_policy, Some(2));
            let mut map = e.extended_map.clone().unwrap();
            map.sort();
            assert_eq!(map, vec![("a".to_string(), "3".to_string()), ("b".to_string(), "2".to_string())]);
            assert_eq!(e.task_id, Some(11));
            assert_eq!(e.parent_task_id, Some(12));
            assert_eq!(e.root_task_id, Some(13));
            assert_eq!(e.child_task_id_count, Some(4));
            assert!(!e.has_post_data());
        }
        other => panic!("expected a navigation entry, got {:?}", other),
    }
}

#[test]
fn bad_optional_field_is_absent_only() {
    let mut body = required_fields(1, 0, "http://x", "x", 1, 0);
    push_string(&mut body, "http://ref/");
    push_i32(&mut body, 5);
    push_string(&mut body, "http://orig/");
    push_i32(&mut body, 2);
    push_i64(&mut body, 42);
    let data = container(3, &[pickled_record(6, &body)]);
    let mut f = SnssFile::new(SnssFileType::Session, data).unwrap();
    match f.get_next_session_command() {
        Ok(SessionCommand::NavigationEntry(e)) => {
            assert_eq!(e.unknown, Some(5));
            assert_eq!(e.is_overriding_user_agent, None);
            assert_eq!(e.timestamp, Some(Timestamp { micros_since_epoch: 42 }));
            assert!(e.search_terms.is_none());
            assert!(e.extended_map.is_none());
            assert!(e.task_id.is_none());
        }
        other => panic!("expected a navigation entry, got {:?}", other),
    }
}

#[test]
fn broken_map_skips_task_fields() {
    let mut body = required_fields(1, 0, "http://x", "x", 1, 0);
    push_string(&mut body, "");
    push_i32(&mut body, 0);
    push_string(&mut body, "");
    push_i32(&mut body, 0);
    push_i64(&mut body, 0);
    push_string16(&mut body, "");
    push_i32(&mut body, 200);
    push_i32(&mut body, 0);
    push_i32(&mut body, 2);
    push_string(&mut body, "k");
    push_string(&mut body, "v");
    let data = container(3, &[pickled_record(6, &body)]);
    let mut f = SnssFile::new(SnssFileType::Session, data).unwrap();
    match f.get_next_session_command() {
        Ok(SessionCommand::NavigationEntry(e)) => {
            assert_eq!(e.http_status, Some(200));
            assert!(e.extended_map.is_none());
            assert!(e.task_id.is_none());
            assert!(e.child_task_id_count.is_none());
        }
        other => panic!("expected a navigation entry, got {:?}", other),
    }
}

#[test]
fn unknown_command_passes_through() {
    let data = container(3, &[raw_record(&[200, 1, 2, 3])]);
    let mut f = SnssFile::new(SnssFileType::Session, data).unwrap();
    match f.get_next_session_command() {
        Ok(SessionCommand::UnprocessedEntry(u)) => {
            assert_eq!(u.command_type, CommandIdType::Session(SessionRestoreIdType::Unknown(200)));
            assert_eq!(u.offset, 8);
            assert_eq!(u.length, 4);
            assert!(u.error.is_none());
        }
        other => panic!("expected an unprocessed entry, got {:?}", other),
    }
    assert!(matches!(f.get_next_session_command(), Ok(SessionCommand::EOF)));
}

#[test]
fn malformed_navigation_does_not_hide_next_record() {
    let mut body = Vec::new();
    push_i32(&mut body, 1);
    let bad = pickled_record(1, &body);
    let good = raw_record(&[9, 0, 0]);
    let data = container(3, &[bad.clone(), good]);
    let mut f = SnssFile::new(SnssFileType::Tab, data).unwrap();
    match f.get_next_session_command() {
        Ok(SessionCommand::UnprocessedEntry(u)) => {
            assert_eq!(u.command_type, CommandIdType::Tab(TabRestoreIdType::CommandUpdateTabNavigation));
            assert_eq!(u.error, Some(PickleError::IoError));
            assert_eq!(u.length, bad.len() - 2);
        }
        other => panic!("expected an unprocessed entry, got {:?}", other),
    }
    assert_eq!(f.cursor(), 8 + bad.len());
    match f.get_next_session_command() {
        Ok(SessionCommand::UnprocessedEntry(u)) => {
            assert_eq!(u.command_type, CommandIdType::Tab(TabRestoreIdType::CommandWindow));
            assert_eq!(u.offset as usize, 8 + bad.len());
        }
        other => panic!("expected an unprocessed entry, got {:?}", other),
    }
}

#[test]
fn bad_pickle_header_is_passed_through() {
    let data = container(3, &[raw_record(&[6, 9, 0, 0, 0])]);
    let mut f = SnssFile::new(SnssFileType::Session, data).unwrap();
    match f.get_next_session_command() {
        Ok(SessionCommand::UnprocessedEntry(u)) => {
            assert_eq!(u.error, Some(PickleError::InvalidPickleLength));
        }
        other => panic!("expected an unprocessed entry, got {:?}", other),
    }
}

#[test]
fn cursor_advances_by_prefix_and_length() {
    let records = vec![raw_record(&[0, 1]), raw_record(&[16]), raw_record(&[17, 1, 2, 3, 4, 5, 6])];
    let data = container(3, &records);
    let mut f = SnssFile::new(SnssFileType::Session, data).unwrap();
    let mut expected = 8;
    for r in &records {
        let before = f.cursor();
        assert_eq!(before, expected);
        match f.get_next_session_command() {
            Ok(SessionCommand::UnprocessedEntry(u)) => {
                assert_eq!(u.offset as usize, before);
                assert_eq!(f.cursor(), before + 2 + u.length);
            }
            other => panic!("expected an unprocessed entry, got {:?}", other),
        }
        expected += r.len();
    }
    assert_eq!(f.cursor(), expected);
    assert!(matches!(f.get_next_session_command(), Ok(SessionCommand::EOF)));
    assert_eq!(f.cursor(), expected);
}

#[test]
fn truncated_payload_fails_that_record_only() {
    let mut data = container(3, &[raw_record(&[0, 1])]);
    data.extend_from_slice(&[10, 0, 5, 5]);
    let total = data.len();
    let mut f = SnssFile::new(SnssFileType::Session, data).unwrap();
    assert!(matches!(f.get_next_session_command(), Ok(SessionCommand::UnprocessedEntry(_))));
    assert!(matches!(f.get_next_session_command(), Err(SnssError::IoError)));
    assert_eq!(f.cursor(), total);
    assert!(matches!(f.get_next_session_command(), Ok(SessionCommand::EOF)));
}

#[test]
fn single_trailing_byte_is_end() {
    let mut data = container(3, &[]);
    data.push(7);
    let mut f = SnssFile::new(SnssFileType::Session, data).unwrap();
    assert!(matches!(f.get_next_session_command(), Ok(SessionCommand::EOF)));
    assert_eq!(f.cursor(), 8);
}

#[test]
fn empty_record_has_no_command() {
    let data = container(3, &[raw_record(&[]), raw_record(&[2])]);
    let mut f = SnssFile::new(SnssFileType::Session, data).unwrap();
    assert!(matches!(f.get_next_session_command(), Err(SnssError::InvalidCommandType)));
    assert_eq!(f.cursor(), 10);
    assert!(matches!(f.get_next_session_command(), Ok(SessionCommand::UnprocessedEntry(_))));
}

#[test]
fn iterate_collects_all_records() {
    let body = required_fields(1, 0, "http://x", "x", 1, 0);
    let data = container(3, &[raw_record(&[0, 1]), pickled_record(6, &body), raw_record(&[200])]);
    let mut f = SnssFile::new(SnssFileType::Session, data).unwrap();
    let all = f.iter_session_commands();
    assert_eq!(all.len(), 3);
    assert!(matches!(all[0], Ok(SessionCommand::UnprocessedEntry(_))));
    assert!(matches!(all[1], Ok(SessionCommand::NavigationEntry(_))));
    assert!(matches!(all[2], Ok(SessionCommand::UnprocessedEntry(_))));
    assert!(f.iter_session_commands().is_empty());
    f.reset();
    assert_eq!(f.cursor(), 8);
    assert_eq!(f.iter_session_commands().len(), 3);
}
