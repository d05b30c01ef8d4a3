//! The unbounded queue that carries chunks from the capture callback to its
//! consumer. The queue itself is tokio's; nothing here is proved about it.

use crate::audio::buffer::AudioChunk;
use tokio::sync::mpsc::{UnboundedReceiver, UnboundedSender};
use vstd::prelude::*;

verus! {

/// `tokio::sync::mpsc::UnboundedSender`, carried as an opaque value.
#[verifier::external_type_specification]
#[verifier::external_body]
#[verifier::reject_recursive_types(T)]
pub struct ExUnboundedSender<T>(UnboundedSender<T>);

/// `tokio::sync::mpsc::UnboundedReceiver`, carried as an opaque value.
#[verifier::external_type_specification]
#[verifier::external_body]
#[verifier::reject_recursive_types(T)]
pub struct ExUnboundedReceiver<T>(UnboundedReceiver<T>);

/// Calls `tokio::sync::mpsc::unbounded_channel` and hands out both halves of
/// the new queue. Nothing is claimed of them.
#[verifier::external_body]
pub(crate) fn open_chunk_channel() -> (halves: (
    UnboundedSender<AudioChunk>,
    UnboundedReceiver<AudioChunk>,
)) {
    tokio::sync::mpsc::unbounded_channel()
}

/// Calls `UnboundedSender::send`, which never blocks, and reports whether the
/// queue took the chunk. It refuses once the receiving half is closed or
/// gone, which another thread may cause at any moment, so nothing is claimed
/// of the answer.
#[verifier::external_body]
pub(crate) fn send_chunk(sender: &UnboundedSender<AudioChunk>, chunk: AudioChunk) -> (taken: bool) {
    sender.send(chunk).is_ok()
}

/// Calls `UnboundedSender::clone`: another handle to the same queue.
#[verifier::external_body]
pub(crate) fn clone_sender(sender: &UnboundedSender<AudioChunk>) -> (handle: UnboundedSender<
    AudioChunk,
>) {
    sender.clone()
}

} // verus!
