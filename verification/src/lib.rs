//! Instruction dispatch and control loop of a quadruped leg-kinematics
//! service.
//!
//! Inbound bus messages carry a dot-delimited routing key and a payload.
//! The routing key selects one of three pose-change instruction kinds; the
//! decoded instruction is turned into a solver command (absolute or relative
//! motion of the torso, or of one paw); after a successful solve the current
//! pose, four vertex chains in leg order, is broadcast. The control loop
//! isolates per-instruction failures so that one bad message never stops the
//! service.
//!
//! The numeric solver, the message transport and the wire encoding are
//! external collaborators; this crate holds the decision logic between them.

pub mod config;
pub mod control;
pub mod controller;
pub mod instruction;
pub mod pose;
pub mod routing;
