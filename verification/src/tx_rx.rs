//! The sending and receiving ends of message channels.
use vstd::prelude::*;

verus! {

/// Why a receive on a channel gave no message.
#[derive(Debug, Clone, Copy, PartialEq, Eq)]
pub enum RxError {
    /// A blocking receive failed: the channel is empty and disconnected.
    Recv,
    /// A non-blocking receive found no message.
    TryRecv(TryRecvFailure),
}

/// Why a non-blocking receive found no message.
#[derive(Debug, Clone, Copy, PartialEq, Eq)]
pub enum TryRecvFailure {
    /// The channel is empty for now.
    Empty,
    /// The channel is empty and all senders are gone.
    Disconnected,
}

/// The sending end of a channel of `T`. `sends` says what the channel has
/// been handed; each implementation gives its own, and the default (which
/// says nothing) only lets implementations outside verified code leave it
/// out.
pub trait Tx<T> {
    /// Whether `message` has been handed to this channel to deliver.
    open spec fn sends(&self, message: T) -> bool {
        true
    }

    /// Sends `message`.
    fn send(&self, message: T)
        ensures
            self.sends(message),
    ;
}

/// The receiving end of a channel of `T`. `received` and `polled` say what
/// a blocking and a non-blocking receive can give; each implementation
/// gives its own, and the defaults (which say nothing) only let
/// implementations outside verified code leave them out.
pub trait Rx<T> {
    /// Whether `result` is what a blocking receive on this channel gave.
    open spec fn received(&self, result: Result<T, RxError>) -> bool {
        true
    }

    /// Whether `result` is what a non-blocking receive on this channel gave.
    open spec fn polled(&self, result: Result<T, RxError>) -> bool {
        true
    }

    /// Waits for the next message.
    fn recv(&self) -> (r: Result<T, RxError>)
        ensures
            self.received(r),
    ;

    /// The next message, if one is waiting.
    fn try_recv(&self) -> (r: Result<T, RxError>)
        ensures
            self.polled(r),
    ;
}

} // verus!
