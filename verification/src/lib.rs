//! Build orchestration for a vendored native library: unpack its sources,
//! build and install them, tell the host build system what to link, and plan
//! the run of the binding generator.
//!
//! The library decides and the caller acts. Every effect on the outside world
//! (files, subprocesses, output) is an [`pipeline::Action`] handed to the
//! caller, and what came of it returns as an [`pipeline::Event`]. The
//! decisions are verified with Verus against the contracts stated on each
//! function; `laws` holds what is proved of whole runs.

pub mod artifact;
pub mod bindings;
pub mod error;
pub mod extract;
pub mod invoke;
pub mod laws;
pub mod link;
pub mod paths;
pub mod pipeline;
pub mod preset;
pub mod profile;
pub mod scan;
pub mod text;
