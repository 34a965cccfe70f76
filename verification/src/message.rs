//! Raw chat messages as the pipeline sees them.
//!
//! A message carries an opaque JSON payload and the UTC calendar day derived
//! from its creation timestamp; that day is the only part of the timestamp
//! the pipeline ever reads, so it is modeled directly.

use vstd::prelude::*;
use crate::date::Date;

verus! {

/// One stored chat message. Immutable once stored; `date` is the UTC calendar
/// day derived from the message's creation time, `data` its JSON payload text.
#[derive(Debug)]
pub struct Message {
    pub id: u64,
    pub date: Date,
    pub data: String,
}

/// Mathematical image of a [`Message`].
pub struct MessageView {
    pub id: u64,
    pub date: Date,
    pub data: Seq<char>,
}

impl View for Message {
    type V = MessageView;

    open spec fn view(&self) -> MessageView {
        MessageView { id: self.id, date: self.date, data: self.data@ }
    }
}

impl Clone for Message {
    fn clone(&self) -> (r: Self)
        ensures
            r == *self,
    {
        Message { id: self.id, date: self.date, data: self.data.clone() }
    }
}

/// The views of a sequence of messages, element by element.
pub open spec fn msg_views(s: Seq<Message>) -> Seq<MessageView> {
    s.map(|i: int, m: Message| m@)
}

} // verus!
