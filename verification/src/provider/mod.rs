//! The supervised provider session: what its children are launched from, and
//! who owns what while they are launched, connected and taken down.
pub mod address;
pub mod adoption;
pub mod denyset;
pub mod directory;
pub mod error;
pub mod launch;
pub mod lifetime;
pub mod path;
pub mod pinned;
pub mod relay;
pub mod session;
pub mod teardown;
pub mod thread_id;
