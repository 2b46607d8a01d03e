//! Properties of the receive loop, proved over its transition function.

use vstd::prelude::*;
use crate::receiver::{Action, Input, Phase, ReadOutcome, Receiver, Termination};

verus! {

/// Once the loop has ended it stays ended: every later input leaves the
/// receiver as it is and gets the same stop, so no read is ever asked for.
pub proof fn ended_loop_stays_ended(r: Receiver, t: Termination, later: Seq<Input>)
    requires
        r.phase == Phase::Terminated(t),
    ensures
        r.run_spec(later).0 == r,
        r.run_spec(later).1.len() == later.len(),
        forall|k: int| 0 <= k < later.len() ==> #[trigger] r.run_spec(later).1[k] == Action::Stop(t),
    decreases later.len(),
{
    if later.len() > 0 {
        ended_loop_stays_ended(r, t, later.drop_last());
    }
}

/// A read that returns zero bytes ends the loop cleanly, and after it no
/// further read is asked for, whatever follows.
pub proof fn zero_byte_read_ends_cleanly(r: Receiver, later: Seq<Input>)
    requires
        r.phase == Phase::Reading,
    ensures
        ({
            let (s, a) = r.step_spec(Input::ReadDone(ReadOutcome::Bytes(0)));
            &&& s.phase == Phase::Terminated(Termination::EndOfStream)
            &&& a == Action::Stop(Termination::EndOfStream)
            &&& s.run_spec(later).0 == s
            &&& forall|k: int|
                0 <= k < later.len() ==> #[trigger] s.run_spec(later).1[k] != Action::Read
        }),
{
    let s = r.step_spec(Input::ReadDone(ReadOutcome::Bytes(0))).0;
    ended_loop_stays_ended(s, Termination::EndOfStream, later);
}

/// A "would block" read right after a readable notification: with the
/// tolerance active the loop goes on with the next event; without it the
/// loop ends as fatal.
pub proof fn would_block_after_readable(r: Receiver)
    requires
        r.phase == Phase::Waiting || r.phase == Phase::Processing,
    ensures
        ({
            let (s, acts) = r.run_spec(
                seq![Input::Ready { readable: true }, Input::ReadDone(ReadOutcome::WouldBlock)],
            );
            &&& acts[0] == Action::Read
            &&& r.policy.tolerates_spurious() ==> {
                &&& !s.is_terminated()
                &&& s.phase == Phase::Processing
                &&& acts[1] == Action::IgnoreSpurious
            }
            &&& !r.policy.tolerates_spurious() ==> {
                &&& s.phase == Phase::Terminated(Termination::Fatal)
                &&& acts[1] == Action::Stop(Termination::Fatal)
            }
        }),
{
    let inputs = seq![Input::Ready { readable: true }, Input::ReadDone(ReadOutcome::WouldBlock)];
    assert(inputs.drop_last().drop_last() =~= Seq::<Input>::empty());
    assert(inputs.drop_last() =~= seq![Input::Ready { readable: true }]);
    let first = r.run_spec(inputs.drop_last().drop_last());
    assert(first == (r, Seq::<Action>::empty()));
    let after_ready = r.run_spec(inputs.drop_last());
    assert(after_ready.0.phase == Phase::Reading);
    assert(after_ready.1 =~= seq![Action::Read]);
}

/// A read error other than "would block" ends the loop as fatal, whatever
/// the policy.
pub proof fn other_errors_are_fatal(r: Receiver)
    requires
        r.phase == Phase::Reading,
    ensures
        r.step_spec(Input::ReadDone(ReadOutcome::Failed)).0.phase == Phase::Terminated(
            Termination::Fatal,
        ),
        r.step_spec(Input::ReadDone(ReadOutcome::Failed)).1 == Action::Stop(Termination::Fatal),
{
}

} // verus!
