//! Credential and session authority: password hashing and checking,
//! sign-up and sign-in decisions, and the issuance of access and refresh
//! tokens, with their behaviour stated as Verus contracts.
use vstd::prelude::*;

pub mod access;
pub mod auth;
pub mod config;
pub mod ct;
mod entropy;
pub mod refresh;
pub mod session;
mod text;
pub mod user;

verus! {

} // verus!
