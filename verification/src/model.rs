//! The mathematical model of a transfer: what it has counted, what it has
//! published, and how one write attempt changes both.
//!
//! The executable methods of [`crate::progress::Progress`] are specified by
//! the step functions of [`Ledger`]. The lemmas at the end of this module
//! state what follows for whole sequences of write attempts.

use vstd::prelude::*;
use crate::item::Snapshot;

verus! {

/// What the wrapped resource answered to a write that was forwarded to it.
#[derive(Clone, Copy, Debug, PartialEq, Eq, Structural)]
pub enum WriteOutcome {
    /// The resource is not ready; the write has to be tried again.
    Pending,
    /// The resource took this many bytes, which may be fewer than offered.
    Accepted(usize),
    /// The resource reported an error of its own.
    Failed,
}

/// One call of write, as it comes to the transfer.
pub struct Attempt {
    /// The cancellation flag as the channel holds it when the write is
    /// entered.
    pub flag: bool,
    /// What the wrapped resource answers if the bytes are offered to it.
    pub answer: WriteOutcome,
}

/// The counters of a transfer together with every snapshot it has
/// published so far, oldest first.
pub struct Ledger {
    pub name: Seq<char>,
    pub total: nat,
    pub size: nat,
    pub published: Seq<Snapshot>,
}

impl Ledger {
    /// A transfer that has not moved or published anything.
    pub open spec fn start(name: Seq<char>) -> Ledger {
        Ledger { name, total: 0, size: 0, published: Seq::empty() }
    }

    /// Whether the transfer has been canceled: its latest snapshot says
    /// so. There is no way back from this state.
    pub open spec fn canceled(self) -> bool {
        self.published.len() > 0 && self.published.last().canceled
    }

    /// The snapshot that describes the counters as they are now.
    pub open spec fn snapshot(self, canceled: bool) -> Snapshot {
        Snapshot { name: self.name, total: self.total, size: self.size, canceled }
    }

    /// Publishing the current counters appends one snapshot.
    pub open spec fn publish(self, canceled: bool) -> Ledger {
        Ledger { published: self.published.push(self.snapshot(canceled)), ..self }
    }

    /// Whether a write entered with the flag as given is refused: the flag
    /// is set now, or the transfer was canceled before.
    pub open spec fn refuses(self, flag: bool) -> bool {
        flag || self.canceled()
    }

    /// Entering a write with the cancellation flag as it was read: a
    /// refused write publishes one canceled snapshot, any other changes
    /// nothing.
    pub open spec fn enter(self, flag: bool) -> Ledger {
        if self.refuses(flag) {
            self.publish(true)
        } else {
            self
        }
    }

    /// Taking note of what the wrapped resource answered: accepted bytes
    /// are added to the size and the new counters are published; a pending
    /// or failed write changes nothing.
    pub open spec fn settle(self, outcome: WriteOutcome) -> Ledger {
        match outcome {
            WriteOutcome::Accepted(n) => (Ledger {
                size: self.size + (n as nat),
                ..self
            }).publish(false),
            WriteOutcome::Pending => self,
            WriteOutcome::Failed => self,
        }
    }

    /// One whole write attempt: it is entered, and unless it is refused
    /// the bytes are offered and the answer is taken note of.
    pub open spec fn attempt(self, a: Attempt) -> Ledger {
        if self.refuses(a.flag) {
            self.enter(a.flag)
        } else {
            self.enter(a.flag).settle(a.answer)
        }
    }

    /// The number of bytes that an attempt moves into the wrapped
    /// resource.
    pub open spec fn forwards(self, a: Attempt) -> nat {
        match a.answer {
            WriteOutcome::Accepted(n) if !self.refuses(a.flag) => n as nat,
            _ => 0,
        }
    }

    /// A sequence of write attempts, in order.
    pub open spec fn run(self, attempts: Seq<Attempt>) -> Ledger
        decreases attempts.len(),
    {
        if attempts.len() == 0 {
            self
        } else {
            self.run(attempts.drop_last()).attempt(attempts.last())
        }
    }

    /// The number of bytes that a sequence of attempts moves into the
    /// wrapped resource.
    pub open spec fn total_forwarded(self, attempts: Seq<Attempt>) -> nat
        decreases attempts.len(),
    {
        if attempts.len() == 0 {
            0
        } else {
            self.total_forwarded(attempts.drop_last()) + self.run(attempts.drop_last()).forwards(
                attempts.last(),
            )
        }
    }

    /// The snapshots are in publishing order: sizes never go down, a
    /// canceled snapshot is followed by canceled ones only, none exceeds
    /// the current size, and all carry this transfer's name and expected
    /// total.
    pub open spec fn ordered(self) -> bool {
        &&& forall|i: int, j: int|
            #![trigger self.published[i], self.published[j]]
            0 <= i <= j < self.published.len() ==> {
                &&& self.published[i].size <= self.published[j].size
                &&& self.published[i].canceled ==> self.published[j].canceled
            }
        &&& forall|i: int|
            0 <= i < self.published.len() ==> {
                &&& (#[trigger] self.published[i]).size <= self.size
                &&& self.published[i].name == self.name
                &&& self.published[i].total == self.total
            }
    }
}

/// The sum of the given byte counts.
pub open spec fn sum(counts: Seq<usize>) -> nat
    decreases counts.len(),
{
    if counts.len() == 0 {
        0
    } else {
        sum(counts.drop_last()) + (counts.last() as nat)
    }
}

/// Writes that find the flag clear and are accepted with the given counts.
pub open spec fn accepted_writes(counts: Seq<usize>) -> Seq<Attempt> {
    Seq::new(
        counts.len(),
        |i: int| Attempt { flag: false, answer: WriteOutcome::Accepted(counts[i]) },
    )
}

/// The snapshots that a transfer standing at `from` publishes while writes
/// with the given accepted counts succeed: one per write, each with the
/// running total up to and including that write.
pub open spec fn running_totals(from: Ledger, counts: Seq<usize>) -> Seq<Snapshot> {
    Seq::new(
        counts.len(),
        |i: int|
            Snapshot {
                name: from.name,
                total: from.total,
                size: from.size + sum(counts.take(i + 1)),
                canceled: false,
            },
    )
}

/// Running two sequences of attempts one after the other is running their
/// concatenation.
pub proof fn lemma_run_concat(from: Ledger, first: Seq<Attempt>, then: Seq<Attempt>)
    ensures
        from.run(first + then) == from.run(first).run(then),
    decreases then.len(),
{
    if then.len() == 0 {
        assert(first + then =~= first);
    } else {
        lemma_run_concat(from, first, then.drop_last());
        assert((first + then).drop_last() =~= first + then.drop_last());
    }
}

/// The size of a transfer is the number of bytes that its wrapped resource
/// accepted: whatever the attempts are, the size grows by exactly the
/// bytes that they forward.
pub proof fn lemma_size_counts_forwarded_bytes(from: Ledger, attempts: Seq<Attempt>)
    ensures
        from.run(attempts).size == from.size + from.total_forwarded(attempts),
        from.run(attempts).name == from.name,
        from.run(attempts).total == from.total,
    decreases attempts.len(),
{
    if attempts.len() > 0 {
        lemma_size_counts_forwarded_bytes(from, attempts.drop_last());
    }
}

/// While no cancellation is seen and every write is accepted, the
/// snapshots that go out are exactly the running totals of the accepted
/// byte counts, one per write and none of them canceled. The counts are
/// those that the wrapped resource accepted, so a partial write adds what
/// was taken and not what was offered.
pub proof fn lemma_accepted_writes_publish_running_totals(from: Ledger, counts: Seq<usize>)
    requires
        !from.canceled(),
    ensures
        from.run(accepted_writes(counts)) == (Ledger {
            size: from.size + sum(counts),
            published: from.published + running_totals(from, counts),
            ..from
        }),
        !from.run(accepted_writes(counts)).canceled(),
    decreases counts.len(),
{
    let end = from.run(accepted_writes(counts));
    if counts.len() == 0 {
        assert(from.published + running_totals(from, counts) =~= from.published);
    } else {
        let before = counts.drop_last();
        lemma_accepted_writes_publish_running_totals(from, before);
        assert(accepted_writes(counts).drop_last() =~= accepted_writes(before));
        assert(counts.take(counts.len() as int) =~= counts);
        assert forall|i: int| 0 <= i < before.len() implies #[trigger] before.take(i + 1)
            == counts.take(i + 1) by {
            assert(before.take(i + 1) =~= counts.take(i + 1));
        }
        assert(end.published =~= from.published + running_totals(from, counts));
    }
}

/// A write that finds the cancellation flag set, or comes after a
/// cancellation, yields exactly one more snapshot, which is marked
/// canceled and carries the size that the last successful write left. The
/// counters stay as they were, nothing is forwarded, and the transfer is
/// canceled from then on.
pub proof fn lemma_refusal_publishes_once(from: Ledger, a: Attempt)
    requires
        a.flag || from.canceled(),
    ensures
        from.attempt(a) == (Ledger {
            published: from.published.push(
                Snapshot { name: from.name, total: from.total, size: from.size, canceled: true },
            ),
            ..from
        }),
        from.forwards(a) == 0,
        from.attempt(a).canceled(),
{
}

/// Cancellation is final, whatever the flag reads afterwards: a canceled
/// transfer refuses every write, so the size no longer moves and no byte
/// reaches the wrapped resource, and each attempt publishes the same
/// canceled snapshot.
pub proof fn lemma_canceled_stays_canceled(from: Ledger, attempts: Seq<Attempt>)
    requires
        from.canceled(),
    ensures
        from.total_forwarded(attempts) == 0,
        from.run(attempts) == (Ledger {
            published: from.published + Seq::new(attempts.len(), |i: int| from.snapshot(true)),
            ..from
        }),
        from.run(attempts).canceled(),
    decreases attempts.len(),
{
    let repeated = Seq::new(attempts.len(), |i: int| from.snapshot(true));
    if attempts.len() == 0 {
        assert(from.published + repeated =~= from.published);
    } else {
        lemma_canceled_stays_canceled(from, attempts.drop_last());
        assert(from.run(attempts).published =~= from.published + repeated);
    }
}

/// From the first write that finds the flag set, the transfer is at its
/// end: that write and all that follow forward nothing, whatever the flag
/// reads for them, and all they publish is the canceled snapshot with the
/// size reached before.
pub proof fn lemma_cancellation_is_final(from: Ledger, attempts: Seq<Attempt>, first: int)
    requires
        0 <= first < attempts.len(),
        attempts[first].flag,
    ensures
        from.total_forwarded(attempts) == from.total_forwarded(attempts.take(first)),
        ({
            let before = from.run(attempts.take(first));
            let end = from.run(attempts);
            &&& end.canceled()
            &&& end.size == before.size
            &&& end.published.len() == before.published.len() + (attempts.len() - first)
            &&& end.published.take(before.published.len() as int) == before.published
            &&& forall|k: int|
                before.published.len() <= k < end.published.len() ==> #[trigger] end.published[k]
                    == before.snapshot(true)
        }),
{
    let head = attempts.take(first);
    let tail = attempts.skip(first + 1);
    let before = from.run(head);
    let at = before.attempt(attempts[first]);
    assert(head.push(attempts[first]) + tail =~= attempts);
    assert(head.push(attempts[first]).drop_last() =~= head);
    lemma_run_concat(from, head.push(attempts[first]), tail);
    lemma_refusal_publishes_once(before, attempts[first]);
    lemma_canceled_stays_canceled(at, tail);
    let end = from.run(attempts);
    assert(end.published =~= before.published + Seq::new(
        (attempts.len() - first) as nat,
        |i: int| before.snapshot(true),
    ));
    assert(end.published.take(before.published.len() as int) =~= before.published);
    lemma_size_counts_forwarded_bytes(from, attempts);
    lemma_size_counts_forwarded_bytes(from, head);
}

/// One attempt keeps the published snapshots in order and retracts none.
pub proof fn lemma_attempt_keeps_order(from: Ledger, next: Attempt)
    requires
        from.ordered(),
    ensures
        from.attempt(next).ordered(),
        from.published.is_prefix_of(from.attempt(next).published),
        from.size <= from.attempt(next).size,
        from.canceled() ==> from.attempt(next).canceled(),
{
}

/// Snapshots go out in order: whatever the attempts are, none that was
/// published is retracted, the size never goes down, each published size
/// is at least every size published before it, and no snapshot that is
/// not canceled follows a canceled one.
pub proof fn lemma_run_keeps_order(from: Ledger, attempts: Seq<Attempt>)
    requires
        from.ordered(),
    ensures
        from.run(attempts).ordered(),
        from.published.is_prefix_of(from.run(attempts).published),
        from.size <= from.run(attempts).size,
        from.canceled() ==> from.run(attempts).canceled(),
    decreases attempts.len(),
{
    if attempts.len() > 0 {
        lemma_run_keeps_order(from, attempts.drop_last());
        lemma_attempt_keeps_order(from.run(attempts.drop_last()), attempts.last());
    }
}

/// A transfer starts in order and not canceled, so by
/// [`lemma_run_keeps_order`] it stays in order.
pub proof fn lemma_start_is_ordered(name: Seq<char>)
    ensures
        Ledger::start(name).ordered(),
        !Ledger::start(name).canceled(),
{
}

} // verus!
