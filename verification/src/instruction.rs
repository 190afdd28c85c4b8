//! Typed pose-change instructions.
//!
//! An instruction is one of three records: orient the torso, move the torso,
//! or move one paw, each either to an absolute target or by a delta relative
//! to the current state. The target itself is a 3-component vector whose
//! numeric representation belongs to the solver, so instructions are generic
//! over the vector type and carry it through untouched.

use vstd::prelude::*;
use crate::routing::InstructionKind;

verus! {

/// One decoded pose-change instruction. `V` is the solver's 3-component
/// vector type; this crate never looks inside it.
#[derive(Clone, Debug, PartialEq)]
pub enum Instruction<V> {
    /// Orient the torso, absolutely or relative to its current orientation.
    ChangeTorsoOrientation { orientation: V, relative: bool },
    /// Move the torso, absolutely or relative to its current position.
    ChangeTorsoPosition { position: V, relative: bool },
    /// Move the paw of leg `leg` (ids 0 through 3), absolutely or relative
    /// to its current position.
    ChangePawPosition { leg: u8, position: V, relative: bool },
}

impl<V> Instruction<V> {
    /// The routing kind this instruction belongs to.
    pub open spec fn kind(self) -> InstructionKind {
        match self {
            Instruction::ChangeTorsoOrientation { .. } => InstructionKind::ChangeTorsoOrientation,
            Instruction::ChangeTorsoPosition { .. } => InstructionKind::ChangeTorsoPosition,
            Instruction::ChangePawPosition { .. } => InstructionKind::ChangePawPosition,
        }
    }

    /// Whether the instruction asks for motion relative to the current state.
    pub open spec fn is_relative(self) -> bool {
        match self {
            Instruction::ChangeTorsoOrientation { relative, .. } => relative,
            Instruction::ChangeTorsoPosition { relative, .. } => relative,
            Instruction::ChangePawPosition { relative, .. } => relative,
        }
    }

    /// The target vector the instruction carries: an absolute target, or a
    /// delta when the instruction is relative.
    pub open spec fn target(self) -> V {
        match self {
            Instruction::ChangeTorsoOrientation { orientation, .. } => orientation,
            Instruction::ChangeTorsoPosition { position, .. } => position,
            Instruction::ChangePawPosition { position, .. } => position,
        }
    }

    /// The leg an instruction names: only a paw move names one.
    pub open spec fn named_leg(self) -> Option<u8> {
        match self {
            Instruction::ChangePawPosition { leg, .. } => Some(leg),
            _ => None,
        }
    }

    /// The routing kind, computed.
    pub fn kind_of(&self) -> (k: InstructionKind)
        ensures
            k == self.kind(),
    {
        match self {
            Instruction::ChangeTorsoOrientation { .. } => InstructionKind::ChangeTorsoOrientation,
            Instruction::ChangeTorsoPosition { .. } => InstructionKind::ChangeTorsoPosition,
            Instruction::ChangePawPosition { .. } => InstructionKind::ChangePawPosition,
        }
    }
}

} // verus!
