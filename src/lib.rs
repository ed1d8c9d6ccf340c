//! Two passes of a compiler for a language whose code runs in two phases: at
//! deploy time (preflight) and after deployment (inflight).
//!
//! - [`inflight_transform`] lifts each runtime closure that stands in deploy-time
//!   code into a resource object whose `handle` method is that closure; what the
//!   rewritten tree is, is stated in [`lifting`].
//! - [`has_type_stmt`] finds whether a body returns or throws, without looking
//!   inside the functions it defines.
pub mod ast;
pub mod has_type_stmt;
pub mod inflight_transform;
pub mod lifting;
