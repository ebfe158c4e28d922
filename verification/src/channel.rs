//! The channels: one carries requests to the thread that talks to mpv, others carry what the
//! callbacks of mpv tell the main thread.
use vstd::prelude::*;
use crossbeam::channel::{Receiver, SendError, Sender};

use crate::omt_client::{ClientRequest, RequestView};
use crate::shared::MpvEvent;

verus! {

/// The sending half of a channel.
#[verifier::external_type_specification]
#[verifier::external_body]
#[verifier::reject_recursive_types(T)]
pub struct ExSender<T>(crossbeam::channel::Sender<T>);

/// The receiving half of a channel.
#[verifier::external_type_specification]
#[verifier::external_body]
#[verifier::reject_recursive_types(T)]
pub struct ExReceiver<T>(crossbeam::channel::Receiver<T>);

/// What `Sender::send` gives back when every receiver is gone.
#[verifier::external_type_specification]
#[verifier::external_body]
#[verifier::reject_recursive_types(T)]
pub struct ExSendError<T>(crossbeam::channel::SendError<T>);

/// The requests that have gone into the channel through this sender, oldest first.
pub uninterp spec fn sent(tx: Sender<ClientRequest>) -> Seq<RequestView>;

/// How many requests the channel holds before a sender has to wait; `None`
/// where it never has to.
pub uninterp spec fn capacity(tx: Sender<ClientRequest>) -> Option<usize>;

/// Whether a request could not be sent through this sender because every receiver is gone.
pub uninterp spec fn gone(tx: Sender<ClientRequest>) -> bool;

/// The channel that this is a sending half of. `Sender::same_channel` tells the channels of two
/// senders apart.
pub uninterp spec fn channel_of_sender(tx: Sender<ClientRequest>) -> nat;

/// The channel that this is a receiving half of.
pub uninterp spec fn channel_of_receiver(rx: Receiver<ClientRequest>) -> nat;

/// The channel that this is a sending half of.
pub uninterp spec fn channel_of_notifier(tx: Sender<MpvEvent>) -> nat;

/// The channel that this is a receiving half of.
pub uninterp spec fn channel_of_listener(rx: Receiver<MpvEvent>) -> nat;

/// What the attempts to take a message through this receiver have brought, oldest first.
pub uninterp spec fn polls(rx: Receiver<MpvEvent>) -> Seq<Option<MpvEvent>>;

/// Makes a channel with `crossbeam::channel::unbounded`, and hands out both of its halves: nothing
/// has been sent through it yet, and sending never waits for room. When the receiving half hands
/// out what has been sent is not stated: that rests on the thread that holds it.
#[verifier::external_body]
pub(crate) fn unbounded() -> (r: (Sender<ClientRequest>, Receiver<ClientRequest>))
    ensures
        sent(r.0) == Seq::<RequestView>::empty(),
        capacity(r.0) is None,
        !gone(r.0),
        channel_of_receiver(r.1) == channel_of_sender(r.0),
{
    crossbeam::channel::unbounded()
}

/// Makes a channel for the callbacks of mpv with `crossbeam::channel::unbounded`, and hands out
/// both of its halves: nobody has tried to take a message from it yet.
#[verifier::external_body]
pub(crate) fn unbounded_events() -> (r: (Sender<MpvEvent>, Receiver<MpvEvent>))
    ensures
        polls(r.1) == Seq::<Option<MpvEvent>>::empty(),
        channel_of_listener(r.1) == channel_of_notifier(r.0),
{
    crossbeam::channel::unbounded()
}

/// Sends with `Sender::send` of `crossbeam::channel`. Where it succeeds, the request stands
/// in the channel behind all those sent before; where it fails, nothing has been sent, and every
/// receiver is gone. None can come back, so from then on it always fails. Until then, which of the
/// two happens rests on the receiving thread.
#[verifier::external_body]
pub(crate) fn send(tx: &mut Sender<ClientRequest>, request: ClientRequest) -> (r: Result<(), SendError<ClientRequest>>)
    requires
        capacity(*old(tx)) is None,
    ensures
        capacity(*final(tx)) == capacity(*old(tx)),
        channel_of_sender(*final(tx)) == channel_of_sender(*old(tx)),
        gone(*old(tx)) ==> r is Err,
        gone(*final(tx)) == (r is Err),
        sent(*final(tx)) == (if r is Ok { sent(*old(tx)).push(request@) } else { sent(*old(tx)) }),
{
    tx.send(request)
}

/// Takes the next message with `Receiver::try_recv` of `crossbeam::channel`, which does not wait.
/// What it brings joins what this receiver has brought before. Which message that is, or whether
/// there is none, is not stated: it rests on the threads that call back.
#[verifier::external_body]
pub(crate) fn try_recv(rx: &mut Receiver<MpvEvent>) -> (r: Option<MpvEvent>)
    ensures
        polls(*final(rx)) == polls(*old(rx)).push(r),
        channel_of_listener(*final(rx)) == channel_of_listener(*old(rx)),
{
    rx.try_recv().ok()
}

} // verus!
