//! Registries for municipal bonds.
//!
//! * [`factory`]: municipalities, the projects registered under them, the
//!   token contracts deployed for each project, and the bytecode versions
//!   that can be deployed.
//! * [`custody`]: the tokens held for users who have no wallet yet, and the
//!   account that each user links to receive them.
//! * [`registry`]: the users that each municipality has approved.
//! * [`nft`]: who owns each token, who may move it, and the transfer.
//!
//! A handler takes the state of its contract and a [`context::Context`] with
//! the facts of the call. It returns the event that it records, or the remote
//! call that it asks for, or an [`error::Error`]; a handler that returns an
//! error leaves the state exactly as it found it. A remote call is carried
//! out by the host, which then calls the matching `resolve_` handler with
//! the outcome.
//!
//! The collections are [`string_set::StringSet`], a set that keeps the order
//! of insertion, and [`str_map::StrMap`], a map keyed by strings. The event
//! records are written as JSON by [`json`]; [`host`] holds what is taken
//! from the NEAR SDK.

pub mod context;
pub mod custody;
pub mod decimal;
pub mod error;
pub mod factory;
pub mod host;
pub mod json;
pub mod nft;
pub mod registry;
pub mod str_map;
pub mod string_set;
