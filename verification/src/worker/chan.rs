//! Trusted access to the completion channel: a bounded multi-producer,
//! multi-consumer queue of completion events.
//!
//! The channel is shared between threads of the embedding, so its contents
//! are not a function of any one holder's calls; no contract here promises
//! what a receiver will observe.

use vstd::prelude::*;

use crate::worker::CompletionEvent;

verus! {

#[verifier::external_type_specification]
#[verifier::external_body]
#[verifier::reject_recursive_types(T)]
pub struct ExSender<T>(crossbeam::channel::Sender<T>);

#[verifier::external_type_specification]
#[verifier::external_body]
#[verifier::reject_recursive_types(T)]
pub struct ExReceiver<T>(crossbeam::channel::Receiver<T>);

/// The capacity a bounded completion channel was created with: the number
/// of events it holds before senders block.
pub uninterp spec fn chan_cap(tx: crossbeam::channel::Sender<CompletionEvent>) -> usize;

/// Relies on `crossbeam::channel::bounded`: a channel that holds at most
/// `cap` events; sends block while it is full.
#[verifier::external_body]
pub(crate) fn channel_bounded(cap: usize) -> (r: (
    crossbeam::channel::Sender<CompletionEvent>,
    crossbeam::channel::Receiver<CompletionEvent>,
))
    ensures
        chan_cap(r.0) == cap,
{
    crossbeam::channel::bounded(cap)
}

/// Relies on `crossbeam::channel::Sender::send`: delivers the event to the
/// channel, blocking while it is full; fails only once every receiver is
/// gone.
#[verifier::external_body]
pub(crate) fn send_event(
    tx: &crossbeam::channel::Sender<CompletionEvent>,
    ev: CompletionEvent,
) -> (delivered: bool) {
    tx.send(ev).is_ok()
}

/// Relies on `crossbeam::channel::Receiver::clone`: another handle to the
/// very same channel — modelled as equality — so each event is delivered to
/// exactly one of the channel's consumers.
#[verifier::external_body]
pub(crate) fn clone_receiver(rx: &crossbeam::channel::Receiver<CompletionEvent>) -> (r:
    crossbeam::channel::Receiver<CompletionEvent>)
    ensures
        r == *rx,
{
    rx.clone()
}

} // verus!
