//! A client for the self-service flows of an identity provider: registration,
//! login, logout and session lookup, each conducted as a short chain of HTTP
//! exchanges that carries cookies and an anti-forgery token.
//!
//! The client sends nothing itself. An operation says which request is to be
//! sent next ([`orchestrator::Progress`]); whoever drives it performs the
//! request, without following redirects, and resumes the operation with the
//! reply ([`http::Reply`]) until it ends. Every step is a function of the
//! state and the reply, stated over the models of the values involved.
//!
//! - [`cookies`]: the cookies of a chain, in the order of their arrival.
//! - [`flow`]: fetching a flow, the redirect, the anti-forgery token.
//! - [`submit`]: the bodies that carry credentials, and their submission.
//! - [`session`]: identities and sessions, read out of the answers.
//! - [`orchestrator`]: one attempt, from the fetch to the outcome.
//! - [`usecases`], [`accounts`]: the operations, with their input checks.
//! - [`lookup`]: session lookup, identity lookup and logout.
//! - [`laws`]: what holds of every run.

pub mod accounts;
pub mod client;
pub mod cookies;
pub mod error;
pub mod flow;
pub mod http;
pub mod json;
pub mod jwt;
pub mod kratos;
pub mod laws;
pub mod local;
pub mod lookup;
pub mod orchestrator;
pub mod session;
pub mod store;
pub mod submit;
pub mod text;
pub mod transport;
pub mod usecases;
pub mod validate;
