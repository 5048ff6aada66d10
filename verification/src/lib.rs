//! Orchestration core of a job-declaration client: the startup sequence of its
//! four roles, the supervisor of their tasks, the template / previous-hash
//! ordering gate, and the connection handshake that every role runs first.

pub mod barrier;
pub mod config;
pub mod error;
pub mod handshake;
pub mod orchestrator;
pub mod registry;
pub mod supervisor;

pub use handshake::SetupConnectionHandler;
pub use orchestrator::start;
