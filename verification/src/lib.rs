//! A local inter-process-communication endpoint model.
//!
//! The library verifies the lifecycle of a filesystem-addressed,
//! connection-oriented endpoint: what a call that produces the stream of
//! incoming connections must do, in which order (create the socket first,
//! tighten its permission bits second), which permission bits it must apply,
//! and which filesystem artifact a destroyed endpoint may remove.  The
//! operating-system calls themselves (bind, chmod, accept, connect, unlink)
//! are carried out by a thin unverified runtime layer that executes the
//! plans this library produces and reports their outcome back.

pub mod artifact;
pub mod endpoint;
pub mod laws;
pub mod plan;
pub mod security;

pub use artifact::Artifact;
pub use endpoint::Endpoint;
pub use endpoint::PlanError;
pub use plan::IncomingPlan;
pub use plan::PlanAction;
pub use plan::PlanOutcome;
pub use security::SecurityAttributes;
