//! Boundary data handed across from collaborators whose own logic is out
//! of the core's scope. They compute a domain result, wrap it in an
//! envelope, and publish it through the registry.

use vstd::prelude::*;

verus! {

/// A request to send a private message: the receiving identity and the
/// message body. The delivering collaborator turns the stored result into
/// a `private_message` envelope for the receiver's identity channel.
pub struct CreatePrivateMessage {
    pub receiver_id: i32,
    pub content: String,
}

} // verus!
