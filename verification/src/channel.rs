//! The two ends of the latest-value channels that a transfer holds.
//!
//! The channels are tokio's `watch` channels. Nothing in this module is
//! proved: each function below is a single call into tokio, and what it
//! promises is what tokio's source shows.

use vstd::prelude::*;
use tokio::sync::watch::{Receiver, Sender};
use crate::item::Item;

verus! {

/// The sending end of a `watch` channel. Its contents are not visible to
/// the verifier.
#[verifier::external_type_specification]
#[verifier::external_body]
#[verifier::reject_recursive_types(T)]
pub struct ExSender<T>(Sender<T>);

/// The receiving end of a `watch` channel. Its contents are not visible to
/// the verifier.
#[verifier::external_type_specification]
#[verifier::external_body]
#[verifier::reject_recursive_types(T)]
pub struct ExReceiver<T>(Receiver<T>);

/// Reads the value that the channel holds right now, through
/// `Receiver::borrow`, without waiting.
///
/// The value is whatever the sending end stored last, so nothing is
/// promised about it: two reads in a row may differ. The read lock that
/// `borrow` takes is released before this function returns.
#[verifier::external_body]
pub(crate) fn current_flag(rx: &Receiver<bool>) -> (flag: bool) {
    *rx.borrow()
}

/// Hands `item` to `Sender::broadcast`, which stores it as the channel's
/// latest value and wakes the receivers, or gives it back as an error when
/// no receiver is left. The result says whether the item was stored.
///
/// Nothing is promised about the result, since it depends on the
/// receivers. The call waits while a receiver on another thread holds a
/// borrow of the channel's value.
#[verifier::external_body]
pub(crate) fn broadcast(tx: &Sender<Item>, item: Item) -> (stored: bool) {
    tx.broadcast(item).is_ok()
}

} // verus!
