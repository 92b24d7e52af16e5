use winevt_core::subscription::{
    evt_subscribe_callback, register_event_callback, to_wide, EVT_SUBSCRIBE_ACTION_DELIVER,
    EVT_SUBSCRIBE_TO_FUTURE_EVENTS,
};

#[test]
fn delivery_is_rendered() {
    let d = evt_subscribe_callback(EVT_SUBSCRIBE_ACTION_DELIVER);
    assert_eq!(d.status, 0);
    assert!(d.render);
    assert_eq!(EVT_SUBSCRIBE_ACTION_DELIVER, 1);
}

#[test]
fn other_actions_are_ignored_with_success() {
    for action in [0u32, 2, 3, u32::MAX] {
        let d = evt_subscribe_callback(action);
        assert_eq!(d.status, 0);
        assert!(!d.render);
    }
}

#[test]
fn wide_strings_are_null_terminated() {
    assert_eq!(to_wide("Ab"), vec![0x41, 0x62, 0]);
    assert_eq!(to_wide(""), vec![0]);
}

#[test]
fn wide_strings_are_padded_to_the_byte_length() {
    assert_eq!(to_wide("\u{e9}"), vec![0xe9, 0, 0]);
    assert_eq!(to_wide("\u{1F600}"), vec![0xD83D, 0xDE00, 0, 0, 0]);
}

#[test]
fn registration_defaults_to_match_all() {
    let request = register_event_callback(&"Security".to_string(), None);
    let expected: Vec<u16> = "Security\0".encode_utf16().collect();
    assert_eq!(request.channel_path, expected);
    assert_eq!(request.query, vec![0x2a, 0]);
    assert_eq!(request.flags, 1);
    assert_eq!(EVT_SUBSCRIBE_TO_FUTURE_EVENTS, 1);
}

#[test]
fn registration_keeps_a_given_query() {
    let request =
        register_event_callback(&"Application".to_string(), Some("*[System[Level=2]]".to_string()));
    let expected: Vec<u16> = "*[System[Level=2]]\0".encode_utf16().collect();
    assert_eq!(request.query, expected);
    assert_eq!(request.flags, EVT_SUBSCRIBE_TO_FUTURE_EVENTS);
}
