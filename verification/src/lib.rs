//! A request-interception authorization layer.
//!
//! A route declares a [`policy::AuthPolicy`]: whether the caller must be
//! logged in or must not be, and what to do when that rule is violated
//! (answer "unauthorized", or redirect). The interceptor in [`interceptor`]
//! turns the policy and the outcome of identity resolution into a decision:
//! forward the request to the wrapped handler, or short-circuit with a
//! terminal response. [`identity`] holds the minimal identity model the interceptor
//! operates on, and [`config`] the process configuration threaded through
//! construction.

pub mod config;
pub mod identity;
pub mod interceptor;
pub mod policy;
