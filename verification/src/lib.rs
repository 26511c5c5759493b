//! Verified core of an asynchronous I/O completion layer for a message-based
//! communication engine.
//!
//! The engine performs connection handling and protocol state machines and
//! exposes a single-shot, callback-completed asynchronous operation
//! primitive. This crate verifies the layer that wraps exactly one in-flight
//! operation per handle: the operation state machine, the classification of
//! completions, the error taxonomy, the ownership discipline for message
//! buffers and for the handles themselves, and the small conversions the
//! engine interface needs. The unverified shell that actually calls the
//! engine drives these functions under its lock and makes no decision of its
//! own.
mod aio;
mod duration;
mod error;
mod handle;
mod message;
mod socket;

pub use aio::{
    can_start, classify_alloc, completion_takes_message, lemma_cancel_idle_is_noop,
    lemma_completion_reenables_start, lemma_outstanding_excludes_start, operation_outstanding,
    state_after_cancel, AioCell, AioResult, State,
};
pub use duration::{duration_to_ms, ms_to_duration, timeout_to_ms, DURATION_INFINITE, MAX_DURATION_MS};
pub use error::{error_for_code, result_for_status, Error, SYSTEM_ERROR_BASE, TRANSPORT_ERROR_BASE, TRANSPORT_ERROR_END};
pub use handle::{must_stop_on_drop, HandleRole};
pub use message::Message;
pub use socket::{contains_nul, nonblock_flag, send_outcome, validate_address, Protocol, FLAG_NONBLOCK};
