//! The control loop's state machine.
//!
//! A single sequential consumer owns the kinematic model. For each queued
//! message it routes the key, has the payload decoded, has the solver apply
//! the selected command, and, only after a successful solve, has the pose
//! broadcast. Every failure along the way is confined to its own iteration:
//! the loop records it and goes on with the next message unchanged.
//!
//! The loop itself blocks on a queue and calls the solver and the bus, which
//! is outside work; this machine holds every decision it makes. The driver
//! feeds it one event at a time and performs exactly the outside work the
//! returned directive names, so the order of recorded outcomes is the
//! arrival order of the messages.

use vstd::prelude::*;
use crate::controller::{command_for, command_spec, SolverCommand};
use crate::instruction::Instruction;
use crate::routing::{route, route_spec, InstructionKind, RouteError};

verus! {

/// Whether the service still consumes instructions.
#[derive(Clone, Copy, PartialEq, Eq, Structural, Debug)]
pub enum LoopState {
    /// Messages are being consumed and applied.
    Running,
    /// The instruction source is closed for good; nothing is processed any
    /// more.
    Stopped,
}

/// Where inside one iteration the machine stands.
#[derive(Clone, Copy, PartialEq, Eq, Structural, Debug)]
pub enum Phase {
    /// Between iterations: waiting for the next message.
    Idle,
    /// A key routed to a known kind; the payload is being decoded.
    Deciding { kind: InstructionKind },
    /// A decoded instruction was handed to the solver.
    Solving { kind: InstructionKind },
}

/// What one fully processed message came to.
#[derive(Clone, Copy, PartialEq, Eq, Structural, Debug)]
pub enum IterationOutcome {
    /// The key held no delimiter; it was logged and nothing else happened.
    KeyRejected,
    /// The key named no known instruction; a warning was the only effect.
    NameUnknown,
    /// The payload would not decode; the iteration was dropped.
    DecodeFailed { kind: InstructionKind },
    /// The solver could not reach the target; the model kept its prior
    /// state and nothing was broadcast.
    SolveFailed { kind: InstructionKind },
    /// The solve converged and the new pose was handed to the broadcaster.
    Applied { kind: InstructionKind },
}

/// What the driver must do next with a routed message.
#[derive(Clone, Copy, PartialEq, Eq, Structural, Debug)]
pub enum RouteDirective {
    /// Log the malformed key; the iteration is over.
    LogInvalidKey,
    /// Warn about the unknown name; the iteration is over.
    LogUnknownName,
    /// Decode the payload with the named kind's decoder and hand the result
    /// back.
    DecodePayload { kind: InstructionKind },
}

/// The control loop's state: whether it still runs, where inside the current
/// iteration it stands, and the record of every finished iteration, oldest
/// first.
pub struct ControlLoop {
    state: LoopState,
    phase: Phase,
    completed: Ghost<Seq<IterationOutcome>>,
}

/// One queued message as the machine sees it: its routing key, whether its
/// payload decoded, and whether the solve it selected converged. The two
/// flags matter only on the paths that reach them.
pub struct MessageEvent {
    pub key: Seq<char>,
    pub decoded: bool,
    pub converged: bool,
}

/// The outcome one message comes to, whatever happened before or after it.
pub open spec fn iteration_spec(e: MessageEvent) -> IterationOutcome {
    match route_spec(e.key) {
        Err(RouteError::InvalidRoutingKey) => IterationOutcome::KeyRejected,
        Err(RouteError::UnknownInstruction) => IterationOutcome::NameUnknown,
        Ok(kind) => if !e.decoded {
            IterationOutcome::DecodeFailed { kind }
        } else if e.converged {
            IterationOutcome::Applied { kind }
        } else {
            IterationOutcome::SolveFailed { kind }
        },
    }
}

/// The outcomes of a whole arrival sequence, in arrival order.
pub open spec fn run_spec(events: Seq<MessageEvent>) -> Seq<IterationOutcome> {
    events.map_values(|e: MessageEvent| iteration_spec(e))
}

impl ControlLoop {
    pub closed spec fn is_running(self) -> bool {
        self.state == LoopState::Running
    }

    pub closed spec fn is_idle(self) -> bool {
        self.phase == Phase::Idle
    }

    pub closed spec fn phase_now(self) -> Phase {
        self.phase
    }

    /// The outcomes of the iterations finished so far, oldest first.
    pub closed spec fn completed_log(self) -> Seq<IterationOutcome> {
        self.completed@
    }

    /// A fresh loop: running, between iterations, nothing processed yet.
    /// Entered only once startup (configuration, model, subscription) has
    /// succeeded.
    pub fn start() -> (c: ControlLoop)
        ensures
            c.is_running(),
            c.is_idle(),
            c.completed_log() == Seq::<IterationOutcome>::empty(),
    {
        ControlLoop {
            state: LoopState::Running,
            phase: Phase::Idle,
            completed: Ghost(Seq::empty()),
        }
    }

    /// Whether the loop still consumes instructions.
    pub fn running(&self) -> (b: bool)
        ensures
            b == self.is_running(),
    {
        match self.state {
            LoopState::Running => true,
            LoopState::Stopped => false,
        }
    }

    /// Routes the key of the next message. A key with no delimiter is
    /// rejected here, before any payload work; an unknown name draws a
    /// warning and nothing more; only a known name moves the iteration on to
    /// decoding. The two rejections finish their iteration on the spot.
    pub fn on_message(&mut self, key: &str) -> (d: RouteDirective)
        requires
            old(self).is_running(),
            old(self).is_idle(),
        ensures
            final(self).is_running(),
            match route_spec(key@) {
                Err(RouteError::InvalidRoutingKey) => {
                    &&& d == RouteDirective::LogInvalidKey
                    &&& final(self).is_idle()
                    &&& final(self).completed_log() == old(self).completed_log().push(
                        IterationOutcome::KeyRejected,
                    )
                },
                Err(RouteError::UnknownInstruction) => {
                    &&& d == RouteDirective::LogUnknownName
                    &&& final(self).is_idle()
                    &&& final(self).completed_log() == old(self).completed_log().push(
                        IterationOutcome::NameUnknown,
                    )
                },
                Ok(kind) => {
                    &&& d == (RouteDirective::DecodePayload { kind })
                    &&& final(self).phase_now() == (Phase::Deciding { kind })
                    &&& final(self).completed_log() == old(self).completed_log()
                },
            },
    {
        match route(key) {
            Err(RouteError::InvalidRoutingKey) => {
                self.completed = Ghost(self.completed@.push(IterationOutcome::KeyRejected));
                RouteDirective::LogInvalidKey
            },
            Err(RouteError::UnknownInstruction) => {
                self.completed = Ghost(self.completed@.push(IterationOutcome::NameUnknown));
                RouteDirective::LogUnknownName
            },
            Ok(kind) => {
                self.phase = Phase::Deciding { kind };
                RouteDirective::DecodePayload { kind }
            },
        }
    }

    /// The payload of the routed message would not decode: record the
    /// dropped iteration and return to waiting. The model was never touched.
    pub fn on_decode_failed(&mut self)
        requires
            old(self).is_running(),
            old(self).phase_now() is Deciding,
        ensures
            final(self).is_running(),
            final(self).is_idle(),
            final(self).completed_log() == old(self).completed_log().push(
                IterationOutcome::DecodeFailed { kind: old(self).phase_now()->Deciding_kind },
            ),
    {
        let ghost kind = self.phase->Deciding_kind;
        self.phase = Phase::Idle;
        self.completed = Ghost(self.completed@.push(IterationOutcome::DecodeFailed { kind }));
    }

    /// The decoded instruction of the current iteration: hands back the one
    /// solver command it selects and waits for the solve's outcome.
    pub fn on_instruction<V>(&mut self, instruction: Instruction<V>) -> (c: SolverCommand<V>)
        requires
            old(self).is_running(),
            old(self).phase_now() == (Phase::Deciding { kind: instruction.kind() }),
        ensures
            final(self).is_running(),
            c == command_spec(instruction),
            final(self).phase_now() == (Phase::Solving { kind: instruction.kind() }),
            final(self).completed_log() == old(self).completed_log(),
    {
        let kind = instruction.kind_of();
        self.phase = Phase::Solving { kind };
        command_for(instruction)
    }

    /// The solver reported back. Only a converged solve asks for a pose
    /// broadcast; a failed one is recorded and the loop moves on, the model
    /// unchanged. Either way the iteration is over.
    pub fn on_solve_result(&mut self, converged: bool) -> (publish: bool)
        requires
            old(self).is_running(),
            old(self).phase_now() is Solving,
        ensures
            final(self).is_running(),
            final(self).is_idle(),
            publish == converged,
            final(self).completed_log() == old(self).completed_log().push(
                if converged {
                    IterationOutcome::Applied { kind: old(self).phase_now()->Solving_kind }
                } else {
                    IterationOutcome::SolveFailed { kind: old(self).phase_now()->Solving_kind }
                },
            ),
    {
        let ghost kind = self.phase->Solving_kind;
        self.phase = Phase::Idle;
        if converged {
            self.completed = Ghost(self.completed@.push(IterationOutcome::Applied { kind }));
            true
        } else {
            self.completed = Ghost(self.completed@.push(IterationOutcome::SolveFailed { kind }));
            false
        }
    }

    /// The instruction source is closed for good: the loop stops cleanly,
    /// between iterations, and processes nothing further.
    pub fn on_source_closed(&mut self)
        requires
            old(self).is_idle(),
        ensures
            !final(self).is_running(),
            final(self).is_idle(),
            final(self).completed_log() == old(self).completed_log(),
    {
        self.state = LoopState::Stopped;
    }
}

/// A key without a delimiter is rejected by routing itself: the iteration
/// records the rejection and the payload decoder is never reached.
pub proof fn lemma_undelimited_key_rejected(e: MessageEvent)
    requires
        !crate::routing::has_delimiter(e.key),
    ensures
        route_spec(e.key) == Err::<InstructionKind, RouteError>(RouteError::InvalidRoutingKey),
        iteration_spec(e) == IterationOutcome::KeyRejected,
{
}

/// An unknown instruction name only draws a warning: whatever its payload
/// held and whatever the solver would have said, the iteration applies
/// nothing and asks for no broadcast.
pub proof fn lemma_unknown_name_warns_only(e: MessageEvent)
    requires
        crate::routing::has_delimiter(e.key),
        crate::routing::kind_for(crate::routing::instruction_name(e.key)) is None,
    ensures
        iteration_spec(e) == IterationOutcome::NameUnknown,
{
}

/// Once a key routed to a known kind, the iteration can only end in that
/// kind's record: dropped at decoding, failed at the solve, or applied; and
/// only the applied ending carries a broadcast with it.
pub proof fn lemma_known_kind_outcomes(e: MessageEvent, kind: InstructionKind)
    requires
        route_spec(e.key) == Ok::<InstructionKind, RouteError>(kind),
    ensures
        !e.decoded ==> iteration_spec(e) == (IterationOutcome::DecodeFailed { kind }),
        e.decoded && !e.converged ==> iteration_spec(e) == (IterationOutcome::SolveFailed { kind }),
        e.decoded && e.converged ==> iteration_spec(e) == (IterationOutcome::Applied { kind }),
{
}

/// Messages are applied in strict arrival order: the outcomes of one batch
/// followed by another are the first batch's outcomes followed by the
/// second's, never interleaved or reordered.
pub proof fn lemma_outcomes_follow_arrival_order(
    earlier: Seq<MessageEvent>,
    later: Seq<MessageEvent>,
)
    ensures
        run_spec(earlier + later) == run_spec(earlier) + run_spec(later),
{
    assert(run_spec(earlier + later) =~= run_spec(earlier) + run_spec(later));
}

/// Iterations are failure-isolated: what one message comes to is a function
/// of that message alone, untouched by any earlier or later failure.
pub proof fn lemma_iterations_isolated(events: Seq<MessageEvent>, i: int)
    requires
        0 <= i < events.len(),
    ensures
        run_spec(events)[i] == iteration_spec(events[i]),
{
}

} // verus!
