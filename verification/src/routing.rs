//! Routing-key interpretation.
//!
//! A routing key is a dot-delimited topic string such as
//! `kinematics.instructions.change_paw_position`. Only the segment after the
//! last delimiter, the instruction name, is meaningful; a key with no
//! delimiter at all is invalid and is rejected before any payload work.

use vstd::prelude::*;

verus! {

/// The topic segment delimiter.
pub const DELIMITER: char = '.';

/// Holds when the key contains at least one delimiter.
pub open spec fn has_delimiter(key: Seq<char>) -> bool {
    exists|i: int| 0 <= i < key.len() && key[i] == DELIMITER
}

/// Index of the first character after the last delimiter; 0 when the key
/// holds no delimiter.
pub open spec fn name_start(key: Seq<char>) -> int
    decreases key.len(),
{
    if key.len() == 0 {
        0
    } else if key[key.len() - 1] == DELIMITER {
        key.len() as int
    } else {
        name_start(key.drop_last())
    }
}

/// The instruction name: the suffix of the key after its last delimiter.
pub open spec fn instruction_name(key: Seq<char>) -> Seq<char> {
    key.subrange(name_start(key), key.len() as int)
}

/// The name starts right after a delimiter position that no later delimiter
/// follows.
proof fn lemma_name_start_at(key: Seq<char>, i: int)
    requires
        0 < i <= key.len(),
        key[i - 1] == DELIMITER,
        forall|j: int| i <= j < key.len() ==> key[j] != DELIMITER,
    ensures
        name_start(key) == i,
    decreases key.len(),
{
    if i < key.len() {
        assert(key.drop_last()[i - 1] == DELIMITER);
        lemma_name_start_at(key.drop_last(), i);
    }
}

/// Splits the instruction name off a routing key: the part after the final
/// delimiter. Returns `None` exactly when the key holds no delimiter.
pub fn split_instruction_name(key: &str) -> (r: Option<&str>)
    ensures
        match r {
            Some(name) => has_delimiter(key@) && name@ == instruction_name(key@),
            None => !has_delimiter(key@),
        },
{
    let n: usize = key.unicode_len();
    let mut i: usize = n;
    while i > 0
        invariant
            i <= n,
            n == key@.len(),
            forall|j: int| i <= j < key@.len() ==> key@[j] != DELIMITER,
        decreases i,
    {
        if key.get_char(i - 1) == DELIMITER {
            proof {
                lemma_name_start_at(key@, i as int);
            }
            return Some(key.substring_char(i, n));
        }
        i = i - 1;
    }
    None
}

/// The three known pose-change instruction kinds.
#[derive(Clone, Copy, PartialEq, Eq, Structural, Debug)]
pub enum InstructionKind {
    ChangeTorsoOrientation,
    ChangeTorsoPosition,
    ChangePawPosition,
}

/// Why a routing key was turned away.
#[derive(Clone, Copy, PartialEq, Eq, Structural, Debug)]
pub enum RouteError {
    /// The key holds no delimiter, so it names no instruction at all.
    InvalidRoutingKey,
    /// The key names an instruction this service does not know.
    UnknownInstruction,
}

/// The instruction kind a name selects, if any.
pub open spec fn kind_for(name: Seq<char>) -> Option<InstructionKind> {
    if name == "change_torso_orientation"@ {
        Some(InstructionKind::ChangeTorsoOrientation)
    } else if name == "change_torso_position"@ {
        Some(InstructionKind::ChangeTorsoPosition)
    } else if name == "change_paw_position"@ {
        Some(InstructionKind::ChangePawPosition)
    } else {
        None
    }
}

/// What routing decides for a key: a known instruction kind, or the exact
/// reason the key is turned away.
pub open spec fn route_spec(key: Seq<char>) -> Result<InstructionKind, RouteError> {
    if !has_delimiter(key) {
        Err(RouteError::InvalidRoutingKey)
    } else {
        match kind_for(instruction_name(key)) {
            Some(kind) => Ok(kind),
            None => Err(RouteError::UnknownInstruction),
        }
    }
}

/// Character-for-character equality of two string slices.
fn str_equal(a: &str, b: &str) -> (r: bool)
    ensures
        r == (a@ == b@),
{
    let n: usize = a.unicode_len();
    let m: usize = b.unicode_len();
    if n != m {
        return false;
    }
    let mut i: usize = 0;
    while i < n
        invariant
            i <= n,
            n == a@.len(),
            n == b@.len(),
            forall|j: int| 0 <= j < i ==> a@[j] == b@[j],
        decreases n - i,
    {
        if a.get_char(i) != b.get_char(i) {
            return false;
        }
        i = i + 1;
    }
    proof {
        assert(a@ =~= b@);
    }
    true
}

/// Routes a key: extracts the instruction name and maps it to one of the
/// three known instruction kinds. A key with no delimiter is rejected as
/// invalid before any name lookup; a well-formed key with an unknown name is
/// turned away as unknown.
pub fn route(key: &str) -> (r: Result<InstructionKind, RouteError>)
    ensures
        r == route_spec(key@),
{
    match split_instruction_name(key) {
        None => Err(RouteError::InvalidRoutingKey),
        Some(name) => {
            if str_equal(name, "change_torso_orientation") {
                Ok(InstructionKind::ChangeTorsoOrientation)
            } else if str_equal(name, "change_torso_position") {
                Ok(InstructionKind::ChangeTorsoPosition)
            } else if str_equal(name, "change_paw_position") {
                Ok(InstructionKind::ChangePawPosition)
            } else {
                Err(RouteError::UnknownInstruction)
            }
        },
    }
}

} // verus!
