//! The decorator that counts, publishes and checks for cancellation.
//!
//! A [`Progress`] owns the destination of a copy. Reads, seeks, flushes
//! and shutdowns go straight to the destination, through
//! [`Progress::get_mut`]. A write goes through two steps around the
//! destination's own write:
//!
//! 1. [`Progress::begin_write`] reads the cancellation flag. If it is set,
//!    or was set at an earlier write, one canceled snapshot is published
//!    and the write fails with [`WriteError::Canceled`]; the bytes must
//!    not be offered to the destination.
//! 2. Otherwise the caller offers the bytes to the destination and reports
//!    its answer to [`Progress::settle`], which adds the accepted bytes to
//!    the size and publishes the new snapshot.
//!
//! Cancellation is final: once a write has found the flag set, every
//! later write is refused, whatever the flag reads by then.

use vstd::prelude::*;
use tokio::sync::watch::{Receiver, Sender};
use crate::channel::{broadcast, current_flag};
use crate::item::{Item, Snapshot};
use crate::model::{Ledger, WriteOutcome};

verus! {

/// Why a write did not reach the wrapped resource.
#[derive(Clone, Copy, Debug, PartialEq, Eq, Structural)]
pub enum WriteError {
    /// The cancellation flag was set when this write or an earlier one was
    /// entered.
    Canceled,
}

impl WriteError {
    /// The text that goes with the error.
    pub fn message(&self) -> (text: &'static str)
        ensures
            text@ == "canceled"@,
    {
        match self {
            WriteError::Canceled => "canceled",
        }
    }
}

/// What has been handed to the channel, and whether the last of it was
/// marked canceled.
struct Sent {
    canceled: bool,
    /// Every snapshot handed to the channel so far, oldest first.
    log: Ghost<Seq<Snapshot>>,
}

/// What a transfer has counted, and what it has handed to its channel.
struct Counters {
    name: String,
    total: u64,
    size: u64,
    sent: Sent,
}

impl View for Counters {
    type V = Ledger;

    closed spec fn view(&self) -> Ledger {
        Ledger {
            name: self.name@,
            total: self.total as nat,
            size: self.size as nat,
            published: self.sent.log@,
        }
    }
}

impl Counters {
    /// Holds of the counters at all times: the snapshots handed to the
    /// channel are in order, and the latch is set exactly when the last of
    /// them is marked canceled.
    #[verifier::type_invariant]
    closed spec fn in_order(&self) -> bool {
        &&& self@.ordered()
        &&& self.sent.canceled == self@.canceled()
    }
}

/// A byte resource wrapped for progress reporting and cancellation.
pub struct Progress<T> {
    counters: Counters,
    buf: T,
    tx: Sender<Item>,
    rx: Receiver<bool>,
}

impl<T> View for Progress<T> {
    type V = Ledger;

    /// The counters, and the snapshots handed to the channel so far.
    closed spec fn view(&self) -> Ledger {
        self.counters@
    }
}

impl<T> Progress<T> {
    /// The wrapped resource.
    pub closed spec fn resource(&self) -> T {
        self.buf
    }

    /// The end of the channel through which snapshots go out.
    pub closed spec fn sender(&self) -> Sender<Item> {
        self.tx
    }

    /// The end of the channel on which a cancellation request comes in.
    pub closed spec fn receiver(&self) -> Receiver<bool> {
        self.rx
    }

    /// Whether `after` holds the same resource and channel ends as `self`.
    pub open spec fn same_parts(&self, after: &Self) -> bool {
        &&& after.resource() == self.resource()
        &&& after.sender() == self.sender()
        &&& after.receiver() == self.receiver()
    }

    /// Wraps `buf`. Snapshots will go out through `tx`, and `rx` is where
    /// a cancellation request comes in. Nothing has been counted or
    /// published yet, the expected total is unknown, and the transfer is
    /// not canceled.
    pub fn new(name: &str, tx: Sender<Item>, rx: Receiver<bool>, buf: T) -> (progress: Self)
        ensures
            progress@ == Ledger::start(name@),
            progress@.ordered(),
            progress.resource() == buf,
            progress.sender() == tx,
            progress.receiver() == rx,
    {
        let counters = Counters {
            name: name.to_owned(),
            total: 0,
            size: 0,
            sent: Sent { canceled: false, log: Ghost(Seq::empty()) },
        };
        Progress { counters, buf, tx, rx }
    }

    /// The snapshot of the counters as they are now, marked as given.
    pub fn to_item(&self, canceled: bool) -> (item: Item)
        ensures
            item@ == self@.snapshot(canceled),
    {
        Item {
            name: self.counters.name.clone(),
            total: self.counters.total,
            size: self.counters.size,
            canceled,
        }
    }

    /// The number of bytes that the wrapped resource has accepted.
    pub fn size(&self) -> (size: u64)
        ensures
            size == self@.size,
    {
        self.counters.size
    }

    /// Whether a write has found the cancellation flag set.
    pub fn is_canceled(&self) -> (canceled: bool)
        ensures
            canceled == self@.canceled(),
    {
        proof {
            use_type_invariant(&self.counters);
        }
        self.counters.sent.canceled
    }

    /// Shared access to the wrapped resource.
    pub fn get_ref(&self) -> (buf: &T)
        ensures
            *buf == self.resource(),
    {
        &self.buf
    }

    /// Exclusive access to the wrapped resource, for the operations that
    /// pass through: whatever is done to it, the counters stay as they
    /// are and nothing is published.
    pub fn get_mut(&mut self) -> (buf: &mut T)
        ensures
            *buf == old(self).resource(),
            final(self).resource() == *final(buf),
            final(self).sender() == old(self).sender(),
            final(self).receiver() == old(self).receiver(),
            final(self)@ == old(self)@,
            final(self)@.ordered(),
    {
        proof {
            use_type_invariant(&self.counters);
        }
        &mut self.buf
    }

    /// Hands the current counters to the channel and records it. That no
    /// observer is left to take them is no fault of the transfer, so what
    /// the channel says of it is dropped.
    fn publish(&mut self, canceled: bool)
        requires
            old(self)@.canceled() ==> canceled,
        ensures
            final(self)@ == old(self)@.publish(canceled),
            final(self)@.ordered(),
            old(self).same_parts(final(self)),
    {
        proof {
            use_type_invariant(&self.counters);
        }
        let item = self.to_item(canceled);
        proof {
            assert(self.counters@.publish(canceled).ordered());
        }
        self.counters.sent = Sent { canceled, log: Ghost(self.counters.sent.log@.push(item@)) };
        let _ = broadcast(&self.tx, item);
    }

    /// Enters a write, given the cancellation flag as it was read.
    ///
    /// With the flag set, or after an earlier write found it set, the
    /// write is refused: one snapshot with the unchanged size, marked
    /// canceled, is published, and the bytes must not be offered to the
    /// wrapped resource. Otherwise nothing happens and the write may go
    /// on.
    pub fn enter(&mut self, flag: bool) -> (entry: Result<(), WriteError>)
        ensures
            final(self)@ == old(self)@.enter(flag),
            final(self)@.ordered(),
            old(self).same_parts(final(self)),
            old(self)@.refuses(flag) ==> entry == Err::<(), WriteError>(WriteError::Canceled),
            !old(self)@.refuses(flag) ==> entry == Ok::<(), WriteError>(()),
    {
        proof {
            use_type_invariant(&self.counters);
        }
        if flag || self.counters.sent.canceled {
            self.publish(true);
            Err(WriteError::Canceled)
        } else {
            Ok(())
        }
    }

    /// Enters a write: reads the cancellation flag without waiting and
    /// acts on it as [`Progress::enter`] does.
    ///
    /// A transfer that is canceled already refuses the write whatever the
    /// flag reads. For one that is not, the flag decides, and since it is
    /// set from outside either outcome is possible; what each one means is
    /// fixed.
    pub fn begin_write(&mut self) -> (entry: Result<(), WriteError>)
        ensures
            final(self)@.ordered(),
            old(self).same_parts(final(self)),
            old(self)@.canceled() ==> entry is Err,
            entry is Ok ==> final(self)@ == old(self)@ && !final(self)@.canceled(),
            entry is Err ==> {
                &&& entry == Err::<(), WriteError>(WriteError::Canceled)
                &&& final(self)@ == old(self)@.publish(true)
            },
    {
        let flag = current_flag(&self.rx);
        self.enter(flag)
    }

    /// Takes note of what the wrapped resource answered to a write that
    /// was offered to it, which a canceled transfer never does.
    ///
    /// Accepted bytes, which may be fewer than were offered, are added to
    /// the size, and the new counters are published, also when no byte was
    /// accepted. A pending or failed write changes and publishes nothing.
    pub fn settle(&mut self, outcome: WriteOutcome)
        requires
            !old(self)@.canceled(),
            outcome matches WriteOutcome::Accepted(n) ==> old(self)@.size + n <= u64::MAX,
        ensures
            final(self)@ == old(self)@.settle(outcome),
            final(self)@.ordered(),
            !final(self)@.canceled(),
            old(self).same_parts(final(self)),
    {
        proof {
            use_type_invariant(&self.counters);
        }
        match outcome {
            WriteOutcome::Accepted(n) => {
                let bigger: u64 = self.counters.size + n as u64;
                proof {
                    assert((Ledger { size: bigger as nat, ..self.counters@ }).ordered());
                }
                self.counters.size = bigger;
                self.publish(false);
            },
            WriteOutcome::Pending => {},
            WriteOutcome::Failed => {},
        }
    }
}

} // verus!
