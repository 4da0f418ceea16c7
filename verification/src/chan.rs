//! The completion-notification channel.
//!
//! A session broadcasts "some track finished" events to any number of
//! subscribers over a watch channel. The channel calls themselves are outside
//! code and stand behind the trusted items below; the session's verified
//! logic decides when an event is sent.

use vstd::prelude::*;

verus! {

#[verifier::external_type_specification]
#[verifier::external_body]
#[verifier::reject_recursive_types(T)]
pub struct ExWatchSender<T>(tokio::sync::watch::Sender<T>);

#[verifier::external_type_specification]
#[verifier::external_body]
#[verifier::reject_recursive_types(T)]
pub struct ExWatchReceiver<T>(tokio::sync::watch::Receiver<T>);

/// Relies on tokio::sync::watch::channel: creates a fresh channel and hands
/// back its sender. The initial receiver is dropped at once; the sender stays
/// usable, and observers are added later through it.
#[verifier::external_body]
pub(crate) fn new_event_channel() -> tokio::sync::watch::Sender<()> {
    let (sender, _receiver) = tokio::sync::watch::channel(());
    sender
}

/// Relies on tokio::sync::watch::Sender::subscribe: returns a new receiver on
/// the sender's channel. The receiver sees events sent after this call; the
/// value current at subscription counts as already seen.
#[verifier::external_body]
pub(crate) fn subscribe(sender: &tokio::sync::watch::Sender<()>) -> tokio::sync::watch::Receiver<()> {
    sender.subscribe()
}

/// Relies on tokio::sync::watch::Sender::send: notifies every live receiver
/// of a new value. The call fails, and this returns false, exactly when no
/// receiver exists at the moment of the call; a broadcast without observers
/// is acceptable, so the caller may ignore the result.
#[verifier::external_body]
pub(crate) fn send_event(sender: &tokio::sync::watch::Sender<()>) -> bool {
    sender.send(()).is_ok()
}

} // verus!
