//! Request-evaluation core of a web application firewall: the rule model,
//! statement matching, rate limiting against a shared counter store, the
//! forwarding contract, and the rules for replacing the live policy.

pub mod config;
pub mod locator;
pub mod pattern;
pub mod pipeline;
pub mod proxy;
pub mod rate;
pub mod regular;
pub mod request;
pub mod statements;
pub mod text;
pub mod tools;
