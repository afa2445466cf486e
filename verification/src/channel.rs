//! Trusted interface to the bounded channels of the crossbeam-channel
//! crate.
//!
//! The decoder worker hands decoded frames to the player over a bounded
//! channel, and the player hands control commands back over another; a
//! third carries error reports. What a non-blocking poll returns depends
//! on the other thread, so nothing is promised of it; the one documented
//! guarantee stated here is that a failed send returns the rejected
//! message unchanged.

use vstd::prelude::*;

verus! {

/// The send endpoint of a crossbeam channel, opaque to verification.
#[verifier::external_type_specification]
#[verifier::external_body]
#[verifier::reject_recursive_types(T)]
pub struct ExSender<T>(crossbeam_channel::Sender<T>);

/// The receive endpoint of a crossbeam channel, opaque to verification.
#[verifier::external_type_specification]
#[verifier::external_body]
#[verifier::reject_recursive_types(T)]
pub struct ExReceiver<T>(crossbeam_channel::Receiver<T>);

/// The error of a non-blocking receive: nothing was there, or the
/// senders are gone. Declared transparently so callers can tell the two
/// apart.
#[verifier::external_type_specification]
pub struct ExTryRecvError(crossbeam_channel::TryRecvError);

/// The error of a non-blocking send, carrying the rejected message:
/// the channel was full, or the receivers are gone. Declared
/// transparently so callers can recover the message.
#[verifier::external_type_specification]
#[verifier::reject_recursive_types(T)]
pub struct ExTrySendError<T>(crossbeam_channel::TrySendError<T>);

/// Relies on crossbeam_channel::Receiver::try_recv: a non-blocking poll.
/// What it returns depends on the sending thread, so nothing is assumed
/// of the outcome.
pub assume_specification<T>[ crossbeam_channel::Receiver::<T>::try_recv ](
    rx: &crossbeam_channel::Receiver<T>,
) -> Result<T, crossbeam_channel::TryRecvError>;

/// Relies on crossbeam_channel::Receiver::is_empty: a momentary snapshot
/// of the channel, stale as soon as it is taken, so nothing is assumed
/// of the outcome.
pub assume_specification<T>[ crossbeam_channel::Receiver::<T>::is_empty ](
    rx: &crossbeam_channel::Receiver<T>,
) -> bool;

/// Relies on crossbeam_channel::Sender::try_send: a non-blocking send
/// whose error, as documented, contains the original message, so a
/// rejected frame is not lost.
pub assume_specification<T>[ crossbeam_channel::Sender::<T>::try_send ](
    tx: &crossbeam_channel::Sender<T>,
    msg: T,
) -> (outcome: Result<(), crossbeam_channel::TrySendError<T>>)
    ensures
        match outcome {
            Ok(()) => true,
            Err(crossbeam_channel::TrySendError::Full(m)) => m == msg,
            Err(crossbeam_channel::TrySendError::Disconnected(m)) => m == msg,
        },
;

} // verus!
