//! Guardian-owned process-group supervision.
//!
//! Reported process identifiers are containment metadata only; they are never
//! wait authority. The direct handle of a child stays with its owner until the
//! child was exactly reaped.
pub mod attempt;
pub mod attempt_laws;
pub mod child;
pub mod child_laws;
pub mod control;
pub mod control_laws;
pub mod descriptor;
pub mod error;
pub mod observe;
pub mod outcome;
pub mod publish;
pub mod readiness;
pub mod readiness_laws;
pub mod release;
pub mod shutdown;
pub mod shutdown_laws;
pub mod spawn;
pub mod spawn_laws;
pub mod status;
pub mod termination;
