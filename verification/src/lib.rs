//! Core logic of `ig`, a command-line generator of `.gitignore` files.
//!
//! The crate covers the request/response protocol spoken with the remote
//! template service, the error taxonomy that separates user mistakes from
//! transport failures and local filesystem conflicts, and the decision
//! logic that governs where output goes (stdout or a file, with an
//! overwrite guard). Network and filesystem access themselves live in the
//! surrounding binary; everything here is a total function from plain
//! values to plain values.

pub mod error;
pub mod orchestrator;
pub mod protocol;
