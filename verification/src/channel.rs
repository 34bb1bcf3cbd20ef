//! Trusted bindings to the channels of the `futures` crate: a oneshot
//! pair signals one finished ARP resolution, and a bounded channel
//! streams Echo replies to their registrant.

use vstd::prelude::*;
use futures::channel::mpsc;
use futures::channel::oneshot;
use crate::ether::MacAddress;
use crate::ip::icmp::echo::EchoReply;

verus! {

#[verifier::external_type_specification]
#[verifier::external_body]
#[verifier::reject_recursive_types(T)]
pub struct ExOneshotSender<T>(oneshot::Sender<T>);

#[verifier::external_type_specification]
#[verifier::external_body]
#[verifier::reject_recursive_types(T)]
pub struct ExOneshotReceiver<T>(oneshot::Receiver<T>);

#[verifier::external_type_specification]
#[verifier::external_body]
#[verifier::reject_recursive_types(T)]
pub struct ExMpscSender<T>(mpsc::Sender<T>);

#[verifier::external_type_specification]
#[verifier::external_body]
#[verifier::reject_recursive_types(T)]
pub struct ExMpscReceiver<T>(mpsc::Receiver<T>);

#[verifier::external_type_specification]
#[verifier::external_body]
pub struct ExOneshotCanceled(oneshot::Canceled);

#[verifier::external_type_specification]
#[verifier::external_body]
pub struct ExMpscSendError(mpsc::SendError);

#[verifier::external_type_specification]
#[verifier::external_body]
#[verifier::reject_recursive_types(T)]
pub struct ExMpscTrySendError<T>(mpsc::TrySendError<T>);

#[verifier::external_type_specification]
#[verifier::external_body]
pub struct ExMpscTryRecvError(mpsc::TryRecvError);

/// Relies on futures::channel::oneshot::channel: returns the two
/// halves of a fresh single-use channel.
#[verifier::external_body]
pub(crate) fn oneshot_channel_mac() -> (oneshot::Sender<MacAddress>, oneshot::Receiver<
    MacAddress,
>) {
    oneshot::channel()
}

/// Relies on futures::channel::oneshot::Sender::send: hands the value
/// to the receiving half if that half is still alive; either way the
/// sender is consumed.
#[verifier::external_body]
pub(crate) fn oneshot_send_mac(sender: oneshot::Sender<MacAddress>, mac: MacAddress) {
    let _ = sender.send(mac);
}

/// Relies on futures::channel::mpsc::channel: returns the two halves
/// of a fresh channel able to buffer `buffer` messages (plus one slot
/// for the sender).
#[verifier::external_body]
pub(crate) fn mpsc_channel_echo(buffer: usize) -> (mpsc::Sender<EchoReply>, mpsc::Receiver<
    EchoReply,
>) {
    mpsc::channel(buffer)
}

/// Relies on futures::channel::mpsc::Sender::try_send: true exactly
/// when the message was queued for the receiver without blocking;
/// false when the channel is full or disconnected.
#[verifier::external_body]
pub(crate) fn mpsc_try_send_echo(sender: &mut mpsc::Sender<EchoReply>, reply: EchoReply) -> (ok:
    bool) {
    match sender.try_send(reply) {
        Ok(()) => true,
        Err(_) => false,
    }
}

} // verus!
