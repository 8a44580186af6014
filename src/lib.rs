//! Supervision of a single backend process owned by a desktop application:
//! how it is launched, at most one tracked at a time, and stopped on every exit
//! path of the host.

pub mod error;
pub mod launch;
pub mod shutdown;
pub mod supervisor;
