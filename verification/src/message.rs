//! The wire envelope carried over every connection and every internal
//! channel: an open-ended event name together with a producer-defined,
//! structured payload that the transport layer never inspects.

use vstd::prelude::*;

verus! {

/// `serde_json::Value` carries the payload of an envelope. The transport
/// treats it as fully opaque: it is built by a producer, cloned per
/// receiver during fan-out, and never read by the core.
#[verifier::external_type_specification]
#[verifier::external_body]
pub struct ExValue(serde_json::Value);

/// The envelope every channel carries: an event name (`msg_type`) naming
/// what happened, and an opaque payload (`data`) owned by the producer.
/// The set of event names is open; the core enforces no vocabulary.
pub struct WSMessage {
    pub msg_type: String,
    pub data: serde_json::Value,
}

/// Relies on `serde_json::Value::clone` (a derived clone): a deep copy
/// equal to the original value.
#[verifier::external_body]
fn clone_value(value: &serde_json::Value) -> (r: serde_json::Value)
    ensures
        r == *value,
{
    value.clone()
}

impl Clone for WSMessage {
    /// Receivers of a fan-out each get their own copy; the copy carries
    /// the same event name and the same payload as the original.
    fn clone(&self) -> (r: Self)
        ensures
            r == *self,
    {
        WSMessage { msg_type: self.msg_type.clone(), data: clone_value(&self.data) }
    }
}

/// Relies on `serde_json::Map::insert` and `serde_json::Value::from::<i32>`
/// to build the one-field JSON object `{key: value}`.
#[verifier::external_body]
fn object_of_int(key: &str, value: i32) -> (r: serde_json::Value) {
    let mut fields = serde_json::Map::new();
    fields.insert(key.to_owned(), serde_json::Value::from(value));
    serde_json::Value::Object(fields)
}

/// The presence event announced to every identity channel when a user's
/// first global session becomes active.
pub fn agent_online_message(user_id: i32) -> (r: WSMessage)
    ensures
        r.msg_type@ == "agent_online"@,
{
    WSMessage { msg_type: "agent_online".to_owned(), data: object_of_int("user_id", user_id) }
}

/// The presence event announced to every identity channel when a user's
/// global session closes.
pub fn agent_offline_message(user_id: i32) -> (r: WSMessage)
    ensures
        r.msg_type@ == "agent_offline"@,
{
    WSMessage { msg_type: "agent_offline".to_owned(), data: object_of_int("user_id", user_id) }
}

} // verus!
