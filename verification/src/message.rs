//! Messages carried by the hub.

use vstd::prelude::*;

verus! {

/// What a message is, as plain mathematical values.
pub struct MessageView {
    pub seq: nat,
    pub payload: Seq<char>,
}

/// An opaque text payload together with the sequence number it was given
/// when it was accepted. A message never changes after it was created.
#[derive(Debug)]
pub struct Message {
    seq: u64,
    payload: String,
}

impl View for Message {
    type V = MessageView;

    closed spec fn view(&self) -> MessageView {
        MessageView { seq: self.seq as nat, payload: self.payload@ }
    }
}

impl Message {
    /// Builds the message that carries `payload` under the number `seq`.
    pub fn new(seq: u64, payload: String) -> (m: Message)
        ensures
            m@.seq == seq,
            m@.payload == payload@,
    {
        Message { seq, payload }
    }

    /// The sequence number assigned at ingestion.
    pub fn seq(&self) -> (s: u64)
        ensures
            s == self@.seq,
    {
        self.seq
    }

    /// The payload, exactly as it was published.
    pub fn payload(&self) -> (p: &str)
        ensures
            p@ == self@.payload,
    {
        self.payload.as_str()
    }
}

impl Clone for Message {
    fn clone(&self) -> (m: Message)
        ensures
            m@ == self@,
    {
        Message { seq: self.seq, payload: self.payload.clone() }
    }
}

} // verus!
