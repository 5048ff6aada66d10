//! The ordering gate between the template context and the downstream context:
//! a previous hash is not forwarded while a template is still being handled.

use vstd::prelude::*;

verus! {

/// One write to the flag, by either execution context.
#[derive(Clone, Copy, Debug, PartialEq, Eq, Structural)]
pub enum BarrierOp {
    /// The template context is about to forward a new template.
    MarkBusy,
    /// The downstream context has finished reacting to a template.
    MarkDone,
}

/// What a waiter has to do after looking at the flag once.
#[derive(Clone, Copy, Debug, PartialEq, Eq, Structural)]
pub enum WaitOutcome {
    /// The flag reads `true`: the previous-hash event may be forwarded.
    Proceed,
    /// The flag reads `false`: the waiter yields and looks again later.
    Suspend,
}

/// The value of the flag after `ops` were applied, in order, to a flag that
/// held `flag`: the flag remembers the last write only.
pub open spec fn flag_after(flag: bool, ops: Seq<BarrierOp>) -> bool {
    if ops.len() == 0 {
        flag
    } else {
        ops.last() == BarrierOp::MarkDone
    }
}

/// The ordering gate between the template context and the downstream context.
/// `true` means that no template is in flight.
pub struct SynchronizationBarrier {
    done: bool,
}

impl SynchronizationBarrier {
    /// The value of the flag.
    pub closed spec fn is_done(&self) -> bool {
        self.done
    }

    /// A barrier with no template in flight.
    pub fn new() -> (b: Self)
        ensures
            b.is_done(),
    {
        SynchronizationBarrier { done: true }
    }

    /// A barrier whose flag was read as `done`.
    pub fn observed(done: bool) -> (b: Self)
        ensures
            b.is_done() == done,
    {
        SynchronizationBarrier { done }
    }

    /// Records that a template is in flight.
    pub fn mark_busy(&mut self)
        ensures
            !final(self).is_done(),
            final(self).is_done() == flag_after(old(self).is_done(), seq![BarrierOp::MarkBusy]),
    {
        self.done = false;
    }

    /// Records that the downstream context is done with the template.
    pub fn mark_done(&mut self)
        ensures
            final(self).is_done(),
            final(self).is_done() == flag_after(old(self).is_done(), seq![BarrierOp::MarkDone]),
    {
        self.done = true;
    }

    /// Reads the flag.
    pub fn template_handled(&self) -> (b: bool)
        ensures
            b == self.is_done(),
    {
        self.done
    }

    /// One look at the flag by a waiter: it may proceed exactly when the flag
    /// reads `true`. The caller repeats the call, yielding in between, for as
    /// long as the answer is `Suspend`.
    pub fn wait_until_done(&self) -> (w: WaitOutcome)
        ensures
            w == (if self.is_done() {
                WaitOutcome::Proceed
            } else {
                WaitOutcome::Suspend
            }),
    {
        if self.done {
            WaitOutcome::Proceed
        } else {
            WaitOutcome::Suspend
        }
    }

    /// Applies the writes of a trace in order.
    pub fn replay(&mut self, ops: &Vec<BarrierOp>)
        ensures
            final(self).is_done() == flag_after(old(self).is_done(), ops@),
    {
        let mut i: usize = 0;
        while i < ops.len()
            invariant
                i <= ops.len(),
                self.is_done() == flag_after(old(self).is_done(), ops@.take(i as int)),
            decreases ops.len() - i,
        {
            match ops[i] {
                BarrierOp::MarkBusy => self.mark_busy(),
                BarrierOp::MarkDone => self.mark_done(),
            }
            i = i + 1;
            proof {
                assert(ops@.take(i as int).last() == ops@[i - 1]);
            }
        }
        proof {
            assert(ops@.take(ops@.len() as int) =~= ops@);
        }
    }
}

/// A wait that follows a `mark_busy` does not return before the next
/// `mark_done`: whatever was written before the `mark_busy`, and however many
/// writes other than `mark_done` follow it, the flag reads `false`, so every
/// look at it answers `Suspend`.
pub proof fn lemma_wait_blocks_until_mark_done(
    flag: bool,
    before: Seq<BarrierOp>,
    after: Seq<BarrierOp>,
)
    requires
        forall|i: int| 0 <= i < after.len() ==> after[i] != BarrierOp::MarkDone,
    ensures
        !flag_after(flag, before.push(BarrierOp::MarkBusy) + after),
{
    let all = before.push(BarrierOp::MarkBusy) + after;
    if after.len() == 0 {
        assert(all =~= before.push(BarrierOp::MarkBusy));
    } else {
        assert(all.last() == after.last());
    }
}

/// Once `mark_done` is the latest write, a waiter may proceed, whatever came
/// before it.
pub proof fn lemma_mark_done_releases(flag: bool, before: Seq<BarrierOp>)
    ensures
        flag_after(flag, before.push(BarrierOp::MarkDone)),
{
}

/// Repeating one write changes nothing: after one or more `mark_done` with no
/// `mark_busy` among them the flag reads `true`, and after one or more
/// `mark_busy` with no `mark_done` among them it reads `false`.
pub proof fn lemma_repeated_write_idempotent(flag: bool, op: BarrierOp, ops: Seq<BarrierOp>)
    requires
        ops.len() > 0,
        forall|i: int| 0 <= i < ops.len() ==> ops[i] == op,
    ensures
        flag_after(flag, ops) == (op == BarrierOp::MarkDone),
        flag_after(flag_after(flag, ops), ops) == flag_after(flag, ops),
{
}

} // verus!
