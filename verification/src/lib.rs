//! Core logic of a small desktop installer: it resolves platform-specific
//! paths for the Ryujinx emulator, decides when an installation may start,
//! plans the filesystem operations that installing a release archive
//! requires, and drives the install pipeline as an explicit state machine.
//!
//! Filesystem effects are represented as explicit [`fsmodel::FsOp`] values
//! so that planning and its consequences are verified against a
//! mathematical model of the filesystem; a thin unverified shell applies
//! the operations to the real disk.

pub mod archive;
pub mod errors;
pub mod fsmodel;
pub mod paths;
pub mod pipeline;
pub mod plan;
pub mod ready;

use vstd::prelude::*;

verus! {

} // verus!
