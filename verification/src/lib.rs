//! The core of a URL shortener: the registry of short names, the rule that
//! says when a short name still leads somewhere, and the decisions behind
//! each endpoint of the service.
//!
//! The library takes plain values and gives plain values. Listening, sessions,
//! rendering and the calls to the identity provider belong to the server
//! around it, which holds one [`registry::Registry`] behind a lock and asks
//! the functions of [`handlers`] and [`oauth`] what to do with each request.
//!
//! - [`model`]: the registry as a mathematical map, and what follows from its rules
//! - [`registry`]: the registry itself
//! - [`url`]: the record behind a short name
//! - [`names`]: random short names
//! - [`handlers`]: registering, editing, removing, listing, following
//! - [`auth`], [`oauth`]: users, and the steps of signing in
//! - [`templates`]: the answers
//! - [`time`], [`text`]: instants and texts
//!
//! Everything is verified, with four exceptions that are stated without
//! proof: what the date parser, the clock and the random generator of other
//! crates return, and that `==` on string slices compares characters. Each of
//! them says so where it stands.

pub mod auth;
pub mod handlers;
pub mod model;
pub mod names;
pub mod oauth;
pub mod registry;
pub mod templates;
pub mod text;
pub mod time;
pub mod url;
