//! The rules of a small social-publishing program on Solana: profiles, posts,
//! comments and follow relations, with the checks that decide which requests
//! are accepted and how each accepted request changes the accounts.

use vstd::prelude::*;

pub mod accounts;
pub mod error;
pub mod handlers;
pub mod instructions;
pub mod laws;
pub mod pubkey;
pub mod util;
