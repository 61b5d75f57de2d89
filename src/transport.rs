//! Bookkeeping of an exact-length read or write over a transport that may
//! make partial progress on each attempt.
//!
//! The caller performs the attempts (blocking, or after a readiness
//! notification) on the bytes not yet transferred, and reports each outcome
//! here; the transfer says whether to try again, and stops on completion, on
//! a peer that closed, or on a failure.

use vstd::prelude::*;

verus! {

/// The outcome of one attempt.
#[derive(Debug, Clone, Copy, PartialEq, Eq, Structural)]
pub enum IoEvent {
    /// The attempt moved this many bytes; zero means the peer closed.
    Progress(usize),
    /// The transport was not ready: nothing moved, and nothing failed.
    WouldBlock,
    /// The attempt failed with an I/O error.
    Failed,
}

/// What to do after an attempt.
#[derive(Debug, Clone, Copy, PartialEq, Eq, Structural)]
pub enum IoAction {
    /// Try again, once the transport is ready, with the remaining bytes.
    Again,
    /// Every byte was transferred.
    Complete,
    /// The peer closed before every byte was transferred.
    Closed,
    /// The transfer failed.
    Fail,
}

/// The count of bytes transferred after an event, and the action that
/// follows. An attempt that reports more bytes than were left is a failure.
pub open spec fn transfer_step(target: nat, done: nat, ev: IoEvent) -> (nat, IoAction) {
    match ev {
        IoEvent::Progress(n) => if n == 0 {
            (done, IoAction::Closed)
        } else if done + n > target {
            (done, IoAction::Fail)
        } else if done + n == target {
            (target, IoAction::Complete)
        } else {
            ((done + n) as nat, IoAction::Again)
        },
        IoEvent::WouldBlock => (done, IoAction::Again),
        IoEvent::Failed => (done, IoAction::Fail),
    }
}

/// An exact-length transfer in progress.
pub struct ExactTransfer {
    target: usize,
    done: usize,
}

impl ExactTransfer {
    /// The number of bytes to transfer.
    pub closed spec fn target_spec(&self) -> nat {
        self.target as nat
    }

    /// The number of bytes transferred so far.
    pub closed spec fn done_spec(&self) -> nat {
        self.done as nat
    }

    /// The count never passes the target.
    pub closed spec fn wf(&self) -> bool {
        self.done <= self.target
    }

    /// A transfer of `target` bytes, none moved yet.
    pub fn new(target: usize) -> (r: ExactTransfer)
        ensures
            r.wf(),
            r.target_spec() == target,
            r.done_spec() == 0,
    {
        ExactTransfer { target, done: 0 }
    }

    /// The number of bytes transferred so far; the next attempt starts there.
    pub fn done(&self) -> (r: usize)
        ensures
            r == self.done_spec(),
    {
        self.done
    }

    /// The number of bytes still to transfer.
    pub fn remaining(&self) -> (r: usize)
        requires
            self.wf(),
        ensures
            r == self.target_spec() - self.done_spec(),
    {
        self.target - self.done
    }

    /// Whether every byte was transferred.
    pub fn is_complete(&self) -> (r: bool)
        ensures
            r == (self.done_spec() == self.target_spec()),
    {
        self.done == self.target
    }

    /// Records the outcome of an attempt and says what to do next.
    pub fn handle(&mut self, ev: IoEvent) -> (r: IoAction)
        requires
            old(self).wf(),
        ensures
            final(self).wf(),
            final(self).target_spec() == old(self).target_spec(),
            (final(self).done_spec(), r) == transfer_step(
                old(self).target_spec(),
                old(self).done_spec(),
                ev,
            ),
    {
        match ev {
            IoEvent::Progress(n) => {
                if n == 0 {
                    IoAction::Closed
                } else if n > self.target - self.done {
                    IoAction::Fail
                } else {
                    self.done = self.done + n;
                    if self.done == self.target {
                        IoAction::Complete
                    } else {
                        IoAction::Again
                    }
                }
            },
            IoEvent::WouldBlock => IoAction::Again,
            IoEvent::Failed => IoAction::Fail,
        }
    }
}

/// The count and last action after a run of events, starting from `done`.
pub open spec fn transfer_run(target: nat, done: nat, evs: Seq<IoEvent>) -> (nat, IoAction)
    decreases evs.len(),
{
    if evs.len() == 0 {
        (done, if done == target { IoAction::Complete } else { IoAction::Again })
    } else {
        let (d, a) = transfer_step(target, done, evs[0]);
        if evs.len() == 1 || a != IoAction::Again {
            (d, a)
        } else {
            transfer_run(target, d, evs.drop_first())
        }
    }
}

/// An attempt that neither failed nor found the peer closed.
pub open spec fn ordinary_event(ev: IoEvent) -> bool {
    match ev {
        IoEvent::Progress(n) => n > 0,
        IoEvent::WouldBlock => true,
        IoEvent::Failed => false,
    }
}

/// The sum of the byte counts of progress events.
pub open spec fn progress_sum(evs: Seq<IoEvent>) -> int
    decreases evs.len(),
{
    if evs.len() == 0 {
        0
    } else {
        (match evs[0] {
            IoEvent::Progress(n) => n as int,
            _ => 0,
        }) + progress_sum(evs.drop_first())
    }
}

/// However a transport splits a transfer, one byte per attempt or all at
/// once, with any number of not-ready attempts between, the transfer
/// completes exactly when the bytes moved add up to the target.
pub proof fn lemma_partial_progress_completes(target: nat, done: nat, evs: Seq<IoEvent>)
    requires
        done < target,
        evs.len() > 0,
        forall|i: int| 0 <= i < evs.len() ==> ordinary_event(evs[i]),
        done + progress_sum(evs) == target,
        evs.last() is Progress,
    ensures
        transfer_run(target, done, evs) == (target, IoAction::Complete),
    decreases evs.len(),
{
    let (d, a) = transfer_step(target, done, evs[0]);
    let rest = evs.drop_first();
    if evs.len() == 1 {
        assert(progress_sum(rest) == 0);
    } else {
        lemma_progress_sum_nonneg(rest);
        assert(rest.last() == evs.last());
        if a == IoAction::Again {
            assert forall|i: int| 0 <= i < rest.len() implies ordinary_event(rest[i]) by {
                assert(rest[i] == evs[i + 1]);
            }
            lemma_progress_sum_positive(rest);
            lemma_partial_progress_completes(target, d, rest);
        } else {
            lemma_progress_sum_positive(rest);
        }
    }
}

/// Byte counts of progress events are never negative.
pub proof fn lemma_progress_sum_nonneg(evs: Seq<IoEvent>)
    ensures
        progress_sum(evs) >= 0,
    decreases evs.len(),
{
    if evs.len() > 0 {
        lemma_progress_sum_nonneg(evs.drop_first());
    }
}

/// Events that end in real progress move at least one byte.
pub proof fn lemma_progress_sum_positive(evs: Seq<IoEvent>)
    requires
        evs.len() > 0,
        forall|i: int| 0 <= i < evs.len() ==> ordinary_event(evs[i]),
        evs.last() is Progress,
    ensures
        progress_sum(evs) >= 1,
    decreases evs.len(),
{
    let rest = evs.drop_first();
    lemma_progress_sum_nonneg(rest);
    if evs.len() > 1 {
        assert(rest.last() == evs.last());
        assert forall|i: int| 0 <= i < rest.len() implies ordinary_event(rest[i]) by {
            assert(rest[i] == evs[i + 1]);
        }
        lemma_progress_sum_positive(rest);
    }
}

} // verus!
