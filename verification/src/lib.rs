//! Reconciliation engine that keeps a Homarr dashboard in step with a
//! registry of web apps.
//!
//! The crate holds the decisions of the engine: where a new tile goes on a
//! board, when an app is created or updated, which boards a URL must stay
//! away from, how onboarding and credential rotation proceed, and what goes
//! over the wire and into the state file. Transport and storage are left to
//! the caller, who performs the requests that the engine describes and
//! hands the answers back.

pub mod text;
pub mod collections;
pub mod json;
pub mod error;
pub mod config;
pub mod branding;
pub mod registry;
pub mod state;
pub mod persist;
pub mod store;
pub mod board;
pub mod items;
pub mod placement;
pub mod http;
pub mod homarr;
pub mod wire;
pub mod onboarding;
pub mod auth;
pub mod setup;
pub mod sync;
pub mod watch;
pub mod authelia;
pub mod docker;
pub mod status;
