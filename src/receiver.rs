//! The receive loop's state machine.
//!
//! The caller owns the socket and the event registry. It waits for events,
//! hands each one to [`Receiver::step`], performs the [`Action`] it gets back
//! (a read, a wait, or nothing), and hands back what came of it. The
//! receiver decides; it never blocks and never touches the socket.

use vstd::prelude::*;

verus! {

/// Whether spurious readable notifications are tolerated.
///
/// The tolerance is active only when the workaround is switched on and the
/// platform is one whose registry can report readable with no data behind it.
#[derive(PartialEq, Eq, Structural, Clone, Copy, Debug)]
pub struct Policy {
    pub workaround_enabled: bool,
    pub platform_affected: bool,
}

impl Policy {
    pub fn new(workaround_enabled: bool, platform_affected: bool) -> (r: Policy)
        ensures
            r.workaround_enabled == workaround_enabled,
            r.platform_affected == platform_affected,
    {
        Policy { workaround_enabled, platform_affected }
    }

    pub open spec fn spec_tolerates_spurious(&self) -> bool {
        self.workaround_enabled && self.platform_affected
    }

    /// A "would block" read right after a readable notification is ignored
    /// instead of ending the loop.
    #[verifier::when_used_as_spec(spec_tolerates_spurious)]
    pub fn tolerates_spurious(&self) -> (r: bool)
        ensures
            r == self.spec_tolerates_spurious(),
    {
        self.workaround_enabled && self.platform_affected
    }
}

/// What one non-blocking read of the connection gave.
#[derive(PartialEq, Eq, Structural, Clone, Copy, Debug)]
pub enum ReadOutcome {
    /// The read returned this many bytes; zero is the end of the stream.
    Bytes(usize),
    /// The read failed because no data was available.
    WouldBlock,
    /// The read failed for any other reason.
    Failed,
}

/// How a read outcome is understood under a policy.
#[derive(PartialEq, Eq, Structural, Clone, Copy, Debug)]
pub enum Verdict {
    /// Data arrived: this many bytes, at least one.
    Received(usize),
    /// The peer closed the stream: the only clean ending.
    EndOfStream,
    /// A spurious readable notification, tolerated under the policy.
    Spurious,
    /// An error that ends the loop.
    Fatal,
}

pub open spec fn verdict_of(outcome: ReadOutcome, policy: Policy) -> Verdict {
    match outcome {
        ReadOutcome::Bytes(n) => if n == 0 {
            Verdict::EndOfStream
        } else {
            Verdict::Received(n)
        },
        ReadOutcome::WouldBlock => if policy.tolerates_spurious() {
            Verdict::Spurious
        } else {
            Verdict::Fatal
        },
        ReadOutcome::Failed => Verdict::Fatal,
    }
}

/// Classifies a read outcome.
pub fn classify(outcome: ReadOutcome, policy: Policy) -> (r: Verdict)
    ensures
        r == verdict_of(outcome, policy),
{
    match outcome {
        ReadOutcome::Bytes(n) => if n == 0 {
            Verdict::EndOfStream
        } else {
            Verdict::Received(n)
        },
        ReadOutcome::WouldBlock => if policy.tolerates_spurious() {
            Verdict::Spurious
        } else {
            Verdict::Fatal
        },
        ReadOutcome::Failed => Verdict::Fatal,
    }
}

/// How the loop ended.
#[derive(PartialEq, Eq, Structural, Clone, Copy, Debug)]
pub enum Termination {
    /// A read returned zero bytes.
    EndOfStream,
    /// A read failed with an error that the policy does not tolerate.
    Fatal,
}

/// Where the loop stands.
#[derive(PartialEq, Eq, Structural, Clone, Copy, Debug)]
pub enum Phase {
    /// Blocked, or about to block, until the registry reports events.
    Waiting,
    /// Going through the events of one wait cycle.
    Processing,
    /// A read was asked for and its outcome is awaited.
    Reading,
    /// The loop has returned; nothing more is done.
    Terminated(Termination),
}

/// What the caller hands to the receiver.
#[derive(PartialEq, Eq, Structural, Clone, Copy, Debug)]
pub enum Input {
    /// The next readiness event of the current wait cycle.
    Ready { readable: bool },
    /// The outcome of the read that the receiver asked for.
    ReadDone(ReadOutcome),
    /// The current wait cycle has no more events.
    CycleDone,
}

/// What the receiver asks the caller to do next.
#[derive(PartialEq, Eq, Structural, Clone, Copy, Debug)]
pub enum Action {
    /// Read once from the connection, up to the buffer's capacity, and hand
    /// back the outcome.
    Read,
    /// The event is not readable: go on with the next event.
    Skip,
    /// Show this many bytes of the buffer, then go on with the next event.
    Show(usize),
    /// Note the spurious notification, then go on with the next event.
    IgnoreSpurious,
    /// Wait for the next cycle of events.
    Wait,
    /// Stop: the loop has ended.
    Stop(Termination),
    /// The input does not fit the current phase; nothing changed.
    OutOfOrder,
}

/// The receive loop: its policy and its phase.
#[derive(PartialEq, Eq, Structural, Clone, Copy, Debug)]
pub struct Receiver {
    pub policy: Policy,
    pub phase: Phase,
}

impl Receiver {
    pub open spec fn with_phase(self, phase: Phase) -> Receiver {
        Receiver { phase, ..self }
    }

    pub open spec fn spec_is_terminated(&self) -> bool {
        self.phase is Terminated
    }

    /// One transition: the next receiver and the action asked of the caller.
    pub open spec fn step_spec(self, input: Input) -> (Receiver, Action) {
        match self.phase {
            Phase::Terminated(t) => (self, Action::Stop(t)),
            Phase::Reading => match input {
                Input::ReadDone(outcome) => match verdict_of(outcome, self.policy) {
                    Verdict::Received(n) => (self.with_phase(Phase::Processing), Action::Show(n)),
                    Verdict::Spurious => (
                        self.with_phase(Phase::Processing),
                        Action::IgnoreSpurious,
                    ),
                    Verdict::EndOfStream => (
                        self.with_phase(Phase::Terminated(Termination::EndOfStream)),
                        Action::Stop(Termination::EndOfStream),
                    ),
                    Verdict::Fatal => (
                        self.with_phase(Phase::Terminated(Termination::Fatal)),
                        Action::Stop(Termination::Fatal),
                    ),
                },
                _ => (self, Action::OutOfOrder),
            },
            _ => match input {
                Input::Ready { readable } => if readable {
                    (self.with_phase(Phase::Reading), Action::Read)
                } else {
                    (self.with_phase(Phase::Processing), Action::Skip)
                },
                Input::CycleDone => (self.with_phase(Phase::Waiting), Action::Wait),
                Input::ReadDone(_) => (self, Action::OutOfOrder),
            },
        }
    }

    /// A run of inputs, from the first to the last: the receiver it leaves
    /// and the actions asked for, one per input.
    pub open spec fn run_spec(self, inputs: Seq<Input>) -> (Receiver, Seq<Action>)
        decreases inputs.len(),
    {
        if inputs.len() == 0 {
            (self, Seq::empty())
        } else {
            let (mid, actions) = self.run_spec(inputs.drop_last());
            let (next, action) = mid.step_spec(inputs.last());
            (next, actions.push(action))
        }
    }

    /// A receiver about to wait for its first events.
    pub fn new(policy: Policy) -> (r: Receiver)
        ensures
            r.policy == policy,
            r.phase == Phase::Waiting,
    {
        Receiver { policy, phase: Phase::Waiting }
    }

    /// Whether the loop has returned.
    #[verifier::when_used_as_spec(spec_is_terminated)]
    pub fn is_terminated(&self) -> (r: bool)
        ensures
            r == self.spec_is_terminated(),
    {
        match self.phase {
            Phase::Terminated(_) => true,
            _ => false,
        }
    }

    /// Takes one input and says what the caller must do next.
    pub fn step(&mut self, input: Input) -> (a: Action)
        ensures
            (*final(self), a) == old(self).step_spec(input),
    {
        match self.phase {
            Phase::Terminated(t) => Action::Stop(t),
            Phase::Reading => match input {
                Input::ReadDone(outcome) => match classify(outcome, self.policy) {
                    Verdict::Received(n) => {
                        self.phase = Phase::Processing;
                        Action::Show(n)
                    },
                    Verdict::Spurious => {
                        self.phase = Phase::Processing;
                        Action::IgnoreSpurious
                    },
                    Verdict::EndOfStream => {
                        self.phase = Phase::Terminated(Termination::EndOfStream);
                        Action::Stop(Termination::EndOfStream)
                    },
                    Verdict::Fatal => {
                        self.phase = Phase::Terminated(Termination::Fatal);
                        Action::Stop(Termination::Fatal)
                    },
                },
                _ => Action::OutOfOrder,
            },
            _ => match input {
                Input::Ready { readable } => if readable {
                    self.phase = Phase::Reading;
                    Action::Read
                } else {
                    self.phase = Phase::Processing;
                    Action::Skip
                },
                Input::CycleDone => {
                    self.phase = Phase::Waiting;
                    Action::Wait
                },
                Input::ReadDone(_) => Action::OutOfOrder,
            },
        }
    }

    /// Feeds a run of inputs in order and returns the actions asked for.
    pub fn run(&mut self, inputs: &Vec<Input>) -> (actions: Vec<Action>)
        ensures
            (*final(self), actions@) == old(self).run_spec(inputs@),
    {
        let ghost start = *self;
        let mut actions: Vec<Action> = Vec::new();
        let mut i: usize = 0;
        while i < inputs.len()
            invariant
                i <= inputs@.len(),
                (*self, actions@) == start.run_spec(inputs@.subrange(0, i as int)),
            decreases inputs@.len() - i,
        {
            proof {
                assert(inputs@.subrange(0, i as int + 1).drop_last() =~= inputs@.subrange(0, i as int));
            }
            let a = self.step(inputs[i]);
            actions.push(a);
            i = i + 1;
        }
        proof {
            assert(inputs@.subrange(0, i as int) =~= inputs@);
        }
        actions
    }
}

} // verus!
