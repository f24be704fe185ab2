//! Messages as they are broadcast.

use axum::extract::ws::Utf8Bytes;
use vstd::prelude::*;

use crate::payload::text_of;

verus! {

/// One certificate update, serialized once for each of the three streams.
pub struct PreSerializedMessage {
    /// The whole update.
    pub full: Utf8Bytes,
    /// The update without the certificate itself.
    pub lite: Utf8Bytes,
    /// The domain names alone.
    pub domains_only: Utf8Bytes,
}

/// The characters of a [`PreSerializedMessage`].
pub struct MessageText {
    pub full: Seq<char>,
    pub lite: Seq<char>,
    pub domains_only: Seq<char>,
}

impl View for PreSerializedMessage {
    type V = MessageText;

    open spec fn view(&self) -> MessageText {
        MessageText {
            full: text_of(self.full),
            lite: text_of(self.lite),
            domains_only: text_of(self.domains_only),
        }
    }
}

/// The characters of a message are those of its three texts, each for its own stream.
pub proof fn law_a_message_is_its_three_texts(message: PreSerializedMessage)
    ensures
        message@.full == text_of(message.full),
        message@.lite == text_of(message.lite),
        message@.domains_only == text_of(message.domains_only),
{
}

} // verus!
