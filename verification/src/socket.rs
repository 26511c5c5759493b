//! The verified decisions of the synchronous socket surface.
//!
//! Sockets themselves are engine objects; opening, dialing, listening and
//! option access are calls into the engine made by the unverified shell.
//! What the shell decides on its own is verified here: which protocol a
//! socket speaks, the flag word for nonblocking calls, the validation of a
//! textual address before it crosses the engine boundary, and how a
//! synchronous send's status turns into a result that hands a refused
//! message back to the caller unchanged.
use vstd::prelude::*;

use crate::error::{error_for_code, Error};
use crate::message::Message;

verus! {

/// The flag word that selects nonblocking behavior on an engine call.
pub const FLAG_NONBLOCK: u32 = 2;

/// The communication pattern a socket is opened with. Exactly one pattern is
/// bound to a socket for its whole lifetime; the engine implements the
/// pattern's protocol state machine.
#[derive(Clone, Copy, Debug, PartialEq, Eq, Structural)]
pub enum Protocol {
    /// The bus pattern: every message goes to every directly connected peer.
    Bus0,
    /// The one-to-one pair pattern.
    Pair0,
    /// The one-to-one pair pattern, in its revision that can also run a
    /// polyamorous mode.
    Pair1,
    /// The publishing half of publish/subscribe.
    Pub0,
    /// The pulling half of the pipeline pattern.
    Pull0,
    /// The pushing half of the pipeline pattern.
    Push0,
    /// The replying half of request/reply.
    Rep0,
    /// The requesting half of request/reply.
    Req0,
    /// The responding half of the survey pattern.
    Respondent0,
    /// The subscribing half of publish/subscribe.
    Sub0,
    /// The surveying half of the survey pattern.
    Surveyor0,
}

/// The flag word for a socket call: nonblocking sockets pass the nonblocking
/// flag, blocking sockets pass no flags.
pub fn nonblock_flag(nonblocking: bool) -> (r: u32)
    ensures
        nonblocking ==> r == FLAG_NONBLOCK,
        !nonblocking ==> r == 0,
{
    if nonblocking {
        FLAG_NONBLOCK
    } else {
        0
    }
}

/// Whether the byte string contains a zero byte, which no address may, since
/// the engine takes addresses as zero-terminated strings.
pub fn contains_nul(bytes: &[u8]) -> (r: bool)
    ensures
        r <==> (exists|i: int| 0 <= i < bytes@.len() && bytes@[i] == 0),
{
    let mut k: usize = 0;
    while k < bytes.len()
        invariant
            0 <= k <= bytes@.len(),
            forall|i: int| 0 <= i < k ==> bytes@[i] != 0,
        decreases bytes@.len() - k,
    {
        if bytes[k] == 0 {
            return true;
        }
        k = k + 1;
    }
    false
}

/// Validates a textual address before it is handed to the engine: an address
/// with an embedded zero byte is rejected as invalid, since it could not
/// survive the zero-terminated representation the engine reads.
pub fn validate_address(bytes: &[u8]) -> (r: Result<(), Error>)
    ensures
        r is Ok <==> !(exists|i: int| 0 <= i < bytes@.len() && bytes@[i] == 0),
        r matches Err(e) ==> e == Error::AddressInvalid,
{
    if contains_nul(bytes) {
        Err(Error::AddressInvalid)
    } else {
        Ok(())
    }
}

/// Turns the engine's status for a synchronous send into the caller's
/// result. On success the engine consumed the message; on failure the
/// message was not sent and comes back to the caller unchanged, paired with
/// the error the status denotes.
pub fn send_outcome(rv: u32, msg: Message) -> (r: Result<(), (Message, Error)>)
    ensures
        rv == 0 <==> r is Ok,
        rv != 0 ==> (r matches Err((m, e)) && m == msg && e == error_for_code(rv)),
{
    if rv == 0 {
        Ok(())
    } else {
        Err((msg, Error::from_code(rv)))
    }
}

} // verus!
