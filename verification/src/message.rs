//! A single conversation message: a role and its content.

use vstd::prelude::*;

verus! {

/// A message of the conversation. The role and content are arbitrary caller
/// text; the library performs no validation on either field.
pub struct Message {
    /// The role of the message.
    pub role: String,
    /// The content of the message.
    pub content: String,
}

} // verus!
