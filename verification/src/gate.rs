//! The order in which the sandboxed process comes up: the channel to the
//! broker first, the sandbox second, untrusted input last.

use vstd::prelude::*;

verus! {

/// How far the process has come.
#[derive(Clone, Copy, Debug, PartialEq, Eq, Structural)]
pub enum Phase {
    /// Full privilege, no channel yet.
    Privileged,
    /// Full privilege, and the channel to the broker is open.
    Connected,
    /// Inside the sandbox: no further privileged system call is possible.
    Confined,
    /// Inside the sandbox, and taking requests from the network.
    Serving,
}

/// One step of coming up.
#[derive(Clone, Copy, Debug, PartialEq, Eq, Structural)]
pub enum Step {
    /// Open the agent's channel to the broker.
    OpenChannel,
    /// Enter the sandbox.
    EnterSandbox,
    /// Begin to accept untrusted input.
    AcceptInput,
}

/// A step that was asked for out of turn.
#[derive(Clone, Copy, Debug, PartialEq, Eq, Structural)]
pub struct OutOfOrder {
    /// The phase in which the step was asked for.
    pub phase: Phase,
    /// The step that was asked for.
    pub step: Step,
}

/// The phase that a step leads to, if the step is the one that is due.
pub open spec fn phase_after(phase: Phase, step: Step) -> Option<Phase> {
    match (phase, step) {
        (Phase::Privileged, Step::OpenChannel) => Some(Phase::Connected),
        (Phase::Connected, Step::EnterSandbox) => Some(Phase::Confined),
        (Phase::Confined, Step::AcceptInput) => Some(Phase::Serving),
        _ => None,
    }
}

/// The phase that a run of steps leads to from a given phase, if every step
/// of the run was due when it was taken.
pub open spec fn phase_after_all(phase: Phase, steps: Seq<Step>) -> Option<Phase>
    decreases steps.len(),
{
    if steps.len() == 0 {
        Some(phase)
    } else {
        match phase_after(phase, steps[0]) {
            Some(next) => phase_after_all(next, steps.subrange(1, steps.len() as int)),
            None => None,
        }
    }
}

/// Keeps the process to the one order in which it may come up.
#[derive(Clone, Copy, Debug)]
pub struct CapabilityGate {
    pub phase: Phase,
}

impl CapabilityGate {
    /// A gate in its first phase: full privilege, nothing opened.
    pub fn new() -> (gate: CapabilityGate)
        ensures
            gate.phase == Phase::Privileged,
    {
        CapabilityGate { phase: Phase::Privileged }
    }

    /// Takes a step if it is the one that is due, and refuses it otherwise.
    /// A refused step changes nothing.
    pub fn advance(&mut self, step: Step) -> (result: Result<Phase, OutOfOrder>)
        ensures
            match phase_after(old(self).phase, step) {
                Some(next) => final(self).phase == next && result == Ok::<Phase, OutOfOrder>(next),
                None => final(self).phase == old(self).phase && result == Err::<Phase, OutOfOrder>(
                    OutOfOrder { phase: old(self).phase, step },
                ),
            },
    {
        let next = match (self.phase, step) {
            (Phase::Privileged, Step::OpenChannel) => Phase::Connected,
            (Phase::Connected, Step::EnterSandbox) => Phase::Confined,
            (Phase::Confined, Step::AcceptInput) => Phase::Serving,
            _ => {
                return Err(OutOfOrder { phase: self.phase, step });
            },
        };
        self.phase = next;
        Ok(next)
    }

    /// Whether the agent may be queried: the channel is open.
    pub fn may_query(&self) -> (allowed: bool)
        ensures
            allowed == (self.phase != Phase::Privileged),
    {
        match self.phase {
            Phase::Privileged => false,
            _ => true,
        }
    }

    /// Whether untrusted input may be processed.
    pub fn may_serve(&self) -> (allowed: bool)
        ensures
            allowed == (self.phase == Phase::Serving),
    {
        match self.phase {
            Phase::Serving => true,
            _ => false,
        }
    }
}

/// There is one way to come up.  A run of steps from the start that ends in
/// the sandbox is: open the channel, enter the sandbox.  One that ends taking
/// input is those two, then the third.  So the channel is never opened from
/// inside the sandbox, and no input is taken outside it.
pub proof fn lemma_one_way_up(steps: Seq<Step>)
    ensures
        phase_after_all(Phase::Privileged, steps) == Some(Phase::Confined) ==> steps == seq![
            Step::OpenChannel,
            Step::EnterSandbox,
        ],
        phase_after_all(Phase::Privileged, steps) == Some(Phase::Serving) ==> steps == seq![
            Step::OpenChannel,
            Step::EnterSandbox,
            Step::AcceptInput,
        ],
{
    reveal_with_fuel(phase_after_all, 5);
    if phase_after_all(Phase::Privileged, steps) == Some(Phase::Confined) {
        assert(steps.len() == 2);
        assert(steps =~= seq![Step::OpenChannel, Step::EnterSandbox]);
    }
    if phase_after_all(Phase::Privileged, steps) == Some(Phase::Serving) {
        assert(steps.len() == 3);
        assert(steps =~= seq![Step::OpenChannel, Step::EnterSandbox, Step::AcceptInput]);
    }
}

/// Nothing leads back: no step is due once input is taken.
pub proof fn lemma_serving_is_final(step: Step)
    ensures
        phase_after(Phase::Serving, step) is None,
{
}

} // verus!
