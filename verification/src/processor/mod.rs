//! The processors that move downloads through their lifecycle. Each one decides
//! what to do next from the state of a download and the outcome of the work it
//! asked for; the caller carries out that work.

pub mod archive;
pub mod check_ready;
pub mod download;
pub mod extract;
pub mod ingest;
pub mod queue;
