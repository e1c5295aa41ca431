use std::sync::Arc;

use fanout::domain::CreatePrivateMessage;
use fanout::message::WSMessage;
use fanout::message::agent_offline_message;
use fanout::message::agent_online_message;
use fanout::use_cases::MissionViewingUseCase;

fn user_payload(user_id: i32) -> serde_json::Value {
    let mut fields = serde_json::Map::new();
    fields.insert("user_id".to_string(), serde_json::Value::from(user_id));
    serde_json::Value::Object(fields)
}

#[test]
fn clone_preserves_kind_and_payload() {
    let mut fields = serde_json::Map::new();
    fields.insert("depth".to_string(), serde_json::Value::from(3));
    fields.insert(
        "nested".to_string(),
        serde_json::Value::Array(vec![
            serde_json::Value::Bool(true),
            serde_json::Value::String("x".to_string()),
        ]),
    );
    let original = WSMessage {
        msg_type: "friend_request".to_string(),
        data: serde_json::Value::Object(fields),
    };

    let copy = original.clone();
    assert_eq!(copy.msg_type, original.msg_type);
    assert_eq!(copy.data, original.data);
}

#[test]
fn presence_envelopes_carry_the_event_name_and_user_id() {
    let online = agent_online_message(7);
    assert_eq!(online.msg_type, "agent_online");
    assert_eq!(online.data, user_payload(7));

    let offline = agent_offline_message(7);
    assert_eq!(offline.msg_type, "agent_offline");
    assert_eq!(offline.data, user_payload(7));
}

#[test]
fn create_private_message_keeps_its_fields() {
    let request = CreatePrivateMessage {
        receiver_id: 11,
        content: "see you at the rally point".to_string(),
    };
    assert_eq!(request.receiver_id, 11);
    assert_eq!(request.content, "see you at the rally point");
}

#[test]
fn mission_viewing_use_case_keeps_its_repository_handle() {
    let repository = Arc::new(41_i64);
    let use_case = MissionViewingUseCase::new(Arc::clone(&repository));
    assert_eq!(*use_case.repository, 41);
}
