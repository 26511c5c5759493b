//! The message buffer handed to and received from the engine.
//!
//! A message is an owned byte sequence. The asynchronous layer never reads
//! or rewrites its contents: ownership moves to the engine when a send
//! starts, and moves back to the caller either with a successful receive or
//! inside the error of a failed send. The contracts of this module pin the
//! bytes down so that those transfers can be proved lossless.
use vstd::prelude::*;

verus! {

/// An owned message buffer.
#[derive(Clone, Debug)]
pub struct Message {
    body: Vec<u8>,
}

impl View for Message {
    type V = Seq<u8>;

    closed spec fn view(&self) -> Seq<u8> {
        self.body@
    }
}

impl Message {
    /// Creates an empty message.
    pub fn new() -> (r: Message)
        ensures
            r@ == Seq::<u8>::empty(),
    {
        Message { body: Vec::new() }
    }

    /// Creates a message owning the given bytes.
    pub fn from_bytes(body: Vec<u8>) -> (r: Message)
        ensures
            r@ == body@,
    {
        Message { body }
    }

    /// The bytes of the message body.
    pub fn as_bytes(&self) -> (r: &Vec<u8>)
        ensures
            r@ == self@,
    {
        &self.body
    }

    /// Surrenders the message and hands its bytes back.
    pub fn into_bytes(self) -> (r: Vec<u8>)
        ensures
            r@ == self@,
    {
        self.body
    }

    /// The length of the message body in bytes.
    pub fn len(&self) -> (r: usize)
        ensures
            r == self@.len(),
    {
        self.body.len()
    }

    /// Whether the message body is empty.
    pub fn is_empty(&self) -> (r: bool)
        ensures
            r <==> self@.len() == 0,
    {
        self.body.len() == 0
    }
}

} // verus!
