use std::cell::RefCell;

use volume_fix::{
    find_application_for_device, find_device_with_friendly_name, has_prefix, is_friendly_name_key,
    propstore_find, same_text, PropertyKey, SessionCursor,
};

const FRIENDLY_FMTID: u128 = 0x026e516e_b814_414b_83cd_856d6fef4822;

fn names(items: &[&str]) -> Vec<String> {
    items.iter().map(|s| s.to_string()).collect()
}

#[test]
fn prefix_matches_start_of_name() {
    assert!(has_prefix("Speakers (Realtek)", "Speakers"));
    assert!(has_prefix("Speakers", "Speakers"));
    assert!(has_prefix("Speakers", ""));
}

#[test]
fn prefix_is_case_sensitive() {
    assert!(!has_prefix("Speakers (Realtek)", "speakers"));
    assert!(!has_prefix("Headphones", "Speakers"));
}

#[test]
fn prefix_longer_than_name_fails() {
    assert!(!has_prefix("Spk", "Speakers"));
    assert!(!has_prefix("", "S"));
}

#[test]
fn prefix_compares_whole_characters() {
    assert!(has_prefix("Lautsprecher (Größe)", "Lautsprecher (Grö"));
    assert!(!has_prefix("Lautsprecher (Große)", "Lautsprecher (Grö"));
}

#[test]
fn same_text_needs_equal_length() {
    assert!(same_text("MyApp", "MyApp"));
    assert!(!same_text("MyApp", "MyApp2"));
    assert!(!same_text("MyApp", "MyAp"));
    assert!(!same_text("MyApp", "myapp"));
    assert!(same_text("", ""));
}

#[test]
fn friendly_name_key_is_recognised() {
    assert!(is_friendly_name_key(&PropertyKey { fmtid: FRIENDLY_FMTID, pid: 2 }));
    assert!(is_friendly_name_key(&PropertyKey { fmtid: FRIENDLY_FMTID, pid: 7 }));
    assert!(!is_friendly_name_key(&PropertyKey { fmtid: 0, pid: 2 }));
    assert!(!is_friendly_name_key(&PropertyKey { fmtid: FRIENDLY_FMTID + 1, pid: 2 }));
}

#[test]
fn propstore_find_checks_every_name() {
    assert!(propstore_find(&names(&["Realtek Audio", "Speakers (Realtek)"]), "Speakers"));
    assert!(!propstore_find(&names(&["Realtek Audio", "Headphones"]), "Speakers"));
    assert!(!propstore_find(&names(&[]), ""));
}

#[test]
fn device_lookup_returns_lowest_matching_index() {
    let devices = vec![
        names(&["Headphones"]),
        names(&["Speakers (USB)"]),
        names(&["Speakers (Realtek)"]),
    ];
    assert_eq!(find_device_with_friendly_name(&devices, "Speakers"), Ok(1));
    assert_eq!(find_device_with_friendly_name(&devices, "Speakers (R"), Ok(2));
    assert_eq!(find_device_with_friendly_name(&devices, "Head"), Ok(0));
}

#[test]
fn device_lookup_single_device_iff_prefix() {
    let devices = vec![names(&["Speakers (Realtek)"])];
    assert_eq!(find_device_with_friendly_name(&devices, "Speakers"), Ok(0));
    assert_eq!(find_device_with_friendly_name(&devices, ""), Ok(0));
    assert!(find_device_with_friendly_name(&devices, "Speakers (Realtek) 2").is_err());
    assert!(find_device_with_friendly_name(&devices, "SPEAKERS").is_err());
}

#[test]
fn device_lookup_reports_not_found() {
    let devices = vec![names(&["Speakers (Realtek)"]), names(&[])];
    assert_eq!(
        find_device_with_friendly_name(&devices, "Nonexistent"),
        Err("no device with that name found".to_string())
    );
    assert_eq!(
        find_device_with_friendly_name(&Vec::new(), ""),
        Err("no device with that name found".to_string())
    );
}

#[test]
fn device_lookup_uses_any_friendly_name_of_a_device() {
    let devices = vec![names(&["Realtek Audio"]), names(&["Realtek Audio", "Speakers (Realtek)"])];
    assert_eq!(find_device_with_friendly_name(&devices, "Speakers"), Ok(1));
}

#[test]
fn session_lookup_stops_at_first_match() {
    let sessions = names(&["Other", "MyApp", "MyApp", "Last"]);
    let seen = RefCell::new(Vec::new());
    let r = find_application_for_device(&sessions, |n: &String| {
        seen.borrow_mut().push(n.clone());
        n == "MyApp"
    });
    assert_eq!(r, Ok(1));
    assert_eq!(seen.into_inner(), names(&["Other", "MyApp"]));
}

#[test]
fn session_lookup_examines_all_when_none_match() {
    let sessions = names(&["A", "B", "C"]);
    let seen = RefCell::new(Vec::new());
    let r = find_application_for_device(&sessions, |n: &String| {
        seen.borrow_mut().push(n.clone());
        n == "OtherApp"
    });
    assert_eq!(r, Err("audio session not found".to_string()));
    assert_eq!(seen.into_inner(), names(&["A", "B", "C"]));
}

#[test]
fn session_lookup_with_prefix_predicate() {
    let sessions = names(&["Firefox", "MyApp Helper", "MyApp"]);
    let r = find_application_for_device(&sessions, |n: &String| has_prefix(n, "MyApp"));
    assert_eq!(r, Ok(1));
    let r = find_application_for_device(&Vec::new(), |_: &String| true);
    assert_eq!(r, Err("audio session not found".to_string()));
}

#[test]
fn cursor_visits_each_index_once() {
    let mut c = SessionCursor::new(3);
    assert_eq!(c.next(), Some(0));
    assert_eq!(c.next(), Some(1));
    assert_eq!(c.next(), Some(2));
    assert_eq!(c.next(), None);
    assert_eq!(c.next(), None);
    let mut empty = SessionCursor::new(0);
    assert_eq!(empty.next(), None);
}
