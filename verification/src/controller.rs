//! The kinematic controller's dispatch layer.
//!
//! Applying an instruction means calling exactly one motion primitive of the
//! external inverse-kinematics solver. The controller performs no numeric
//! work itself: it only translates an instruction into the one solver command
//! its kind and `relative` flag select. In particular a relative request
//! always selects the relative primitive of its kind, for the orientation
//! branch no less than for the position and paw branches.

use vstd::prelude::*;
use crate::instruction::Instruction;
use crate::routing::InstructionKind;

verus! {

/// One call into the external solver: which motion primitive to invoke and
/// with which target vector. The solver receives the process-wide
/// convergence tolerance alongside; it either moves the model to the target
/// within that tolerance or fails and leaves the model as it was.
#[derive(Clone, Debug, PartialEq)]
pub enum SolverCommand<V> {
    OrientTorsoAbsolute { orientation: V },
    OrientTorsoRelative { orientation: V },
    MoveTorsoAbsolute { position: V },
    MoveTorsoRelative { position: V },
    MovePawAbsolute { leg: u8, position: V },
    MovePawRelative { leg: u8, position: V },
}

impl<V> SolverCommand<V> {
    /// The instruction kind this command serves.
    pub open spec fn kind(self) -> InstructionKind {
        match self {
            SolverCommand::OrientTorsoAbsolute { .. } => InstructionKind::ChangeTorsoOrientation,
            SolverCommand::OrientTorsoRelative { .. } => InstructionKind::ChangeTorsoOrientation,
            SolverCommand::MoveTorsoAbsolute { .. } => InstructionKind::ChangeTorsoPosition,
            SolverCommand::MoveTorsoRelative { .. } => InstructionKind::ChangeTorsoPosition,
            SolverCommand::MovePawAbsolute { .. } => InstructionKind::ChangePawPosition,
            SolverCommand::MovePawRelative { .. } => InstructionKind::ChangePawPosition,
        }
    }

    /// Whether the command is a relative motion primitive.
    pub open spec fn is_relative(self) -> bool {
        match self {
            SolverCommand::OrientTorsoRelative { .. } => true,
            SolverCommand::MoveTorsoRelative { .. } => true,
            SolverCommand::MovePawRelative { .. } => true,
            _ => false,
        }
    }

    /// The vector handed to the solver.
    pub open spec fn target(self) -> V {
        match self {
            SolverCommand::OrientTorsoAbsolute { orientation } => orientation,
            SolverCommand::OrientTorsoRelative { orientation } => orientation,
            SolverCommand::MoveTorsoAbsolute { position } => position,
            SolverCommand::MoveTorsoRelative { position } => position,
            SolverCommand::MovePawAbsolute { position, .. } => position,
            SolverCommand::MovePawRelative { position, .. } => position,
        }
    }

    /// The leg a paw command is aimed at; torso commands aim at none.
    pub open spec fn named_leg(self) -> Option<u8> {
        match self {
            SolverCommand::MovePawAbsolute { leg, .. } => Some(leg),
            SolverCommand::MovePawRelative { leg, .. } => Some(leg),
            _ => None,
        }
    }
}

/// The one solver command an instruction selects.
pub open spec fn command_spec<V>(instruction: Instruction<V>) -> SolverCommand<V> {
    match instruction {
        Instruction::ChangeTorsoOrientation { orientation, relative } => if relative {
            SolverCommand::OrientTorsoRelative { orientation }
        } else {
            SolverCommand::OrientTorsoAbsolute { orientation }
        },
        Instruction::ChangeTorsoPosition { position, relative } => if relative {
            SolverCommand::MoveTorsoRelative { position }
        } else {
            SolverCommand::MoveTorsoAbsolute { position }
        },
        Instruction::ChangePawPosition { leg, position, relative } => if relative {
            SolverCommand::MovePawRelative { leg, position }
        } else {
            SolverCommand::MovePawAbsolute { leg, position }
        },
    }
}

/// Translates an instruction into its solver command. Pure dispatch: the
/// command is a function of the instruction alone, so an absolute request
/// yields the same command whatever state the model is in.
pub fn command_for<V>(instruction: Instruction<V>) -> (c: SolverCommand<V>)
    ensures
        c == command_spec(instruction),
{
    match instruction {
        Instruction::ChangeTorsoOrientation { orientation, relative } => if relative {
            SolverCommand::OrientTorsoRelative { orientation }
        } else {
            SolverCommand::OrientTorsoAbsolute { orientation }
        },
        Instruction::ChangeTorsoPosition { position, relative } => if relative {
            SolverCommand::MoveTorsoRelative { position }
        } else {
            SolverCommand::MoveTorsoAbsolute { position }
        },
        Instruction::ChangePawPosition { leg, position, relative } => if relative {
            SolverCommand::MovePawRelative { leg, position }
        } else {
            SolverCommand::MovePawAbsolute { leg, position }
        },
    }
}

/// Dispatch preserves every semantic attribute of the instruction: the
/// command is of the instruction's kind, carries exactly the instruction's
/// target vector, aims at exactly the leg the instruction names, and is the
/// relative primitive precisely when the instruction asked for relative
/// motion.
pub proof fn lemma_command_reflects_instruction<V>(instruction: Instruction<V>)
    ensures
        command_spec(instruction).kind() == instruction.kind(),
        command_spec(instruction).target() == instruction.target(),
        command_spec(instruction).named_leg() == instruction.named_leg(),
        command_spec(instruction).is_relative() == instruction.is_relative(),
{
}

/// The relative and the absolute case of a kind never collapse into the same
/// solver call: two instructions that agree on everything but the `relative`
/// flag are dispatched to two different primitives.
pub proof fn lemma_relative_distinct_from_absolute<V>(a: Instruction<V>, b: Instruction<V>)
    requires
        a.is_relative(),
        !b.is_relative(),
    ensures
        command_spec(a) != command_spec(b),
{
}

/// A paw-move instruction is dispatched to a paw primitive aimed at exactly
/// the leg the instruction names; no torso primitive is ever selected for
/// it, so no other leg and no torso state is asked to move.
pub proof fn lemma_paw_move_aims_at_named_leg<V>(leg: u8, position: V, relative: bool)
    ensures
        command_spec(Instruction::ChangePawPosition { leg, position, relative }).named_leg()
            == Some(leg),
        command_spec(Instruction::ChangePawPosition { leg, position, relative }).kind()
            == InstructionKind::ChangePawPosition,
{
}

} // verus!
