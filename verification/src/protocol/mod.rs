//! Bounded lifecycle framing and transcript validation.
pub mod authority;
pub mod codec;
pub mod constant_time;
pub mod coordinator;
pub mod deadline;
pub mod delivery;
pub mod endpoint_laws;
pub mod frame;
pub mod framing;
pub mod guardian;
pub mod lifecycle;
pub mod lifecycle_laws;
pub mod message;
pub mod proof_token;
pub mod semantics;
pub mod transcript;
pub mod transfer;
pub mod wire;
pub mod wire_laws;
