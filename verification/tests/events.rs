use account_core::events::{leave_event, PduBuilder};

#[test]
fn leave_event_is_a_membership_of_leave() {
    assert_eq!(
        leave_event("@alice:example.org"),
        PduBuilder {
            event_type: "m.room.member".to_string(),
            content: "{\"membership\":\"leave\"}".to_string(),
            unsigned: None,
            state_key: Some("@alice:example.org".to_string()),
            redacts: None,
        }
    );
}

#[test]
fn leave_content_parses_as_json() {
    let event = leave_event("@bob:example.org");
    let value: serde_json::Value = serde_json::from_str(&event.content).unwrap();
    assert_eq!(value.get("membership").and_then(|m| m.as_str()), Some("leave"));
    assert_eq!(value.as_object().map(|o| o.len()), Some(1));
}
