//! Multi-target command execution engine for a backend-CLI multiplexer.
//!
//! The crate models the decision logic of a tool that fans one command out to
//! several named target environments: resolving requested names against a
//! registry, choosing sequential or concurrent execution, preparing an
//! isolated credential home per environment, labelling concurrent output, and
//! detecting the backend CLI's interactive-mode failure signature.

pub mod cf;
pub mod detect;
pub mod environment;
pub mod errors;
pub mod exec;
pub mod options;
pub mod settings;
pub mod store;
pub mod text;
