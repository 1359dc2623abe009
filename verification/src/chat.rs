//! Chat messages as they are embedded in events.
//!
//! Two messages are the same message if they carry the same identifier;
//! messages are ordered by the time at which they were created.

use crate::event::AccountResponse;
use std::cmp::Ordering;
use vstd::prelude::*;

verus! {

/// One message of a chat room.
#[derive(Clone, Debug, Eq)]
pub struct ChatMessage {
    /// Identifier of the message.
    pub uuid: u128,
    /// The account that wrote the message.
    pub sender: AccountResponse,
    /// The text of the message.
    pub message: String,
    /// Creation time, in milliseconds since the Unix epoch.
    pub created_at: i64,
}

impl PartialEq for ChatMessage {
    fn eq(&self, other: &Self) -> (same: bool) {
        self.uuid == other.uuid
    }
}

impl vstd::std_specs::cmp::PartialEqSpecImpl for ChatMessage {
    open spec fn obeys_eq_spec() -> bool {
        true
    }

    open spec fn eq_spec(&self, other: &ChatMessage) -> bool {
        self.uuid == other.uuid
    }
}

impl PartialOrd for ChatMessage {
    fn partial_cmp(&self, other: &Self) -> (order: Option<Ordering>) {
        if self.created_at < other.created_at {
            Some(Ordering::Less)
        } else if self.created_at > other.created_at {
            Some(Ordering::Greater)
        } else {
            Some(Ordering::Equal)
        }
    }
}

impl vstd::std_specs::cmp::PartialOrdSpecImpl for ChatMessage {
    open spec fn obeys_partial_cmp_spec() -> bool {
        true
    }

    open spec fn partial_cmp_spec(&self, other: &ChatMessage) -> Option<Ordering> {
        if self.created_at < other.created_at {
            Some(Ordering::Less)
        } else if self.created_at > other.created_at {
            Some(Ordering::Greater)
        } else {
            Some(Ordering::Equal)
        }
    }
}

} // verus!
