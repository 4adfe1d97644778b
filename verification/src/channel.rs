//! Bounded channels between the sending and the receiving half.
//!
//! All channels are bounded: a full channel blocks its producer, which is the
//! engine's backpressure; nothing is dropped to relieve pressure.

use crate::records::PingSendRecord;
use vstd::prelude::*;

verus! {

/// The other end of an internal channel is gone.
#[derive(Clone, Copy, Debug, Eq, PartialEq, Structural)]
pub struct ChannelClosed;

/// Why a non-blocking receive produced nothing.
#[derive(Clone, Copy, Debug, Eq, PartialEq, Structural)]
pub enum TryReceiveError {
    /// The channel holds nothing right now.
    Empty,
    /// Every sending end is gone and the channel is drained.
    Disconnected,
}

#[verifier::external_type_specification]
#[verifier::external_body]
#[verifier::reject_recursive_types(T)]
pub struct ExSyncSender<T>(std::sync::mpsc::SyncSender<T>);

#[verifier::external_type_specification]
#[verifier::external_body]
#[verifier::reject_recursive_types(T)]
pub struct ExMpscReceiver<T>(std::sync::mpsc::Receiver<T>);

/// Relies on `std::sync::mpsc::sync_channel`: returns the two endpoints of a
/// bounded channel with room for `bound` queued values.
#[verifier::external_body]
fn mpsc_sync_channel<T>(bound: usize) -> (std::sync::mpsc::SyncSender<T>, std::sync::mpsc::Receiver<
    T,
>) {
    std::sync::mpsc::sync_channel(bound)
}

/// Relies on `std::sync::mpsc::SyncSender::send`: blocks until the channel
/// has room, and fails only when the receiving end is gone.
#[verifier::external_body]
fn mpsc_send<T>(tx: &std::sync::mpsc::SyncSender<T>, data: T) -> bool {
    tx.send(data).is_ok()
}

/// Relies on `std::sync::mpsc::SyncSender::clone`: another sending end of
/// the same channel.
#[verifier::external_body]
fn mpsc_sender_clone<T>(tx: &std::sync::mpsc::SyncSender<T>) -> std::sync::mpsc::SyncSender<T> {
    tx.clone()
}

/// Relies on `std::sync::mpsc::Receiver::try_recv`: takes one queued value
/// without blocking, or says why there is none.
#[verifier::external_body]
fn mpsc_try_recv<T>(rx: &std::sync::mpsc::Receiver<T>) -> Result<T, TryReceiveError> {
    match rx.try_recv() {
        Ok(v) => Ok(v),
        Err(std::sync::mpsc::TryRecvError::Empty) => Err(TryReceiveError::Empty),
        Err(std::sync::mpsc::TryRecvError::Disconnected) => Err(TryReceiveError::Disconnected),
    }
}

/// Relies on `std::sync::mpsc::Receiver::recv`: blocks for one value, and
/// fails only when every sending end is gone and the channel is drained.
#[verifier::external_body]
fn mpsc_recv<T>(rx: &std::sync::mpsc::Receiver<T>) -> Result<T, ChannelClosed> {
    match rx.recv() {
        Ok(v) => Ok(v),
        Err(_) => Err(ChannelClosed),
    }
}

/// The sending half of the bounded send-record channel.
pub struct SyncSender(std::sync::mpsc::SyncSender<PingSendRecord>);

impl SyncSender {
    /// Queues one send record, blocking while the channel is full; fails
    /// only when the receiving half is gone.
    pub fn send(&self, data: PingSendRecord) -> (r: Result<(), ChannelClosed>) {
        if mpsc_send(&self.0, data) {
            Ok(())
        } else {
            Err(ChannelClosed)
        }
    }
}

/// The receiving half of the bounded send-record channel.  It keeps one
/// sending end of its own, so that while the receiver lives a drained
/// channel reports `Empty` rather than `Disconnected`, even after every
/// sender is gone.
pub struct Receiver(std::sync::mpsc::SyncSender<PingSendRecord>, std::sync::mpsc::Receiver<
    PingSendRecord,
>);

impl Receiver {
    /// Takes one queued send record without blocking, or says why there is
    /// none.
    pub fn try_receive(&self) -> (r: Result<PingSendRecord, TryReceiveError>) {
        mpsc_try_recv(&self.1)
    }
}

/// Creates the bounded send-record channel with room for `channel_size`
/// records.
pub fn create_sync_channel(channel_size: usize) -> (r: (SyncSender, Receiver)) {
    let (tx, rx) = mpsc_sync_channel(channel_size);
    let tx_clone = mpsc_sender_clone(&tx);
    (SyncSender(tx_clone), Receiver(tx, rx))
}

/// A one-per-transmitted-packet wake signal from the send loop to the
/// receive loop, so the receive loop never polls before anything was sent.
pub struct PingSentSyncEvent;

/// The sending half of the wake channel.
pub struct PingSentSyncEventSender(std::sync::mpsc::SyncSender<PingSentSyncEvent>);

impl PingSentSyncEventSender {
    /// Signals one transmitted packet, blocking while the channel is full;
    /// fails only when the receiving half is gone.
    pub fn send(&self) -> (r: Result<(), ChannelClosed>) {
        if mpsc_send(&self.0, PingSentSyncEvent) {
            Ok(())
        } else {
            Err(ChannelClosed)
        }
    }
}

/// The receiving half of the wake channel.
pub struct PingSentSyncEventReceiver(std::sync::mpsc::Receiver<PingSentSyncEvent>);

impl PingSentSyncEventReceiver {
    /// Blocks for one wake signal; fails only when the sending half is gone.
    pub fn receive(&self) -> (r: Result<PingSentSyncEvent, ChannelClosed>) {
        mpsc_recv(&self.0)
    }
}

/// Creates the bounded wake channel, with room for `channel_size` pending
/// signals.
pub fn ping_send_sync_event_channel(channel_size: usize) -> (r: (
    PingSentSyncEventSender,
    PingSentSyncEventReceiver,
)) {
    let (tx, rx) = mpsc_sync_channel(channel_size);
    (PingSentSyncEventSender(tx), PingSentSyncEventReceiver(rx))
}

} // verus!
