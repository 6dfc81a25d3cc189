//! Verified core of a supervised terminal session.
//!
//! A coordinator and a guardian share one lifecycle wire. The coordinator owns
//! the outer terminal, the guardian owns two direct children (the App Server
//! and the TUI). This library holds everything that decides: the wire format,
//! the transcript validator, the deadline-bounded transfers, the containment
//! and shutdown of the children, and the ownership rules of the provider
//! launch. Descriptors, clocks and processes stay outside: each machine of the
//! library names the next outside action and is told what came of it.
#![allow(unused_imports)]

pub mod clock;
pub mod protocol;
pub mod process;
pub mod provider;
