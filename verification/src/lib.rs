//! Core of a small multi-tenant web backend: a uniform success/error
//! response envelope, a catalog of typed endpoint descriptors, bearer-token
//! authentication with expiry and lazy revocation, and handlers for user
//! registration via invites and CRUD over user-owned projects.
//!
//! Storage is modelled by an in-memory relational store ([`store::Store`])
//! whose methods mirror the parameterized statements the handlers issue;
//! the handlers are verified against that model.

pub mod api;
pub mod config;
pub mod endpoint;
pub mod extract;
pub mod handlers;
pub mod laws;
pub mod project;
pub mod store;
mod sys;
pub mod text;
pub mod user;
pub mod wire;

use vstd::prelude::*;

verus! {

} // verus!
