//! Controlled fault-injection decision engine for resilience testing.
//!
//! The engine compiles declarative experiment rules into efficient matchers,
//! gates activation through layered safety controls (kill switch, drain flag,
//! schedule windows, excluded paths), and decides one of several fault
//! behaviours per request:
//!
//! - latency injection (fixed or random range)
//! - error injection (HTTP status codes)
//! - timeout simulation
//! - throttle hints
//! - response corruption
//! - connection reset simulation
//!
//! The engine itself performs no I/O and never sleeps: every decision is
//! returned as a plain value, including the suspension the host must perform
//! before delivering the outcome.

pub mod agent;
pub mod clock;
pub mod config;
pub mod faults;
pub mod random;
pub mod targeting;
pub mod text;

pub use agent::ChaosAgent;
pub use config::Config;
