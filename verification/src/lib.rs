//! A single-slot request/response hand-off between callers and the one worker
//! that owns an expensive compute backend.
//!
//! The crate holds the protocol only: how a request reaches the worker, how
//! the worker announces readiness and completion, and which typed failure a
//! caller sees. The backend itself stays outside; the worker side is written
//! as a state machine that is told what the backend did.

pub mod broker;
pub mod doorbell;
pub mod error;
pub mod gate;
pub mod guarantees;
pub mod payload;
pub mod queue;
pub mod session;
pub mod slot;
pub mod worker;
