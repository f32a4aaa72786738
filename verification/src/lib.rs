//! The rules of a blog platform, verified. At the centre stands
//! authentication and authorization: password policy and hashing, login
//! lockout, one-time tokens, the lifecycle of access and refresh tokens,
//! role-based permissions and the visibility of drafts. Around it stand
//! the rules of the content endpoints: names and slugs, merges, paging
//! and names that are alike.
//!
//! The library does no input and output. It works on plain values and on
//! stores that it is handed; what reads requests, talks to a database or
//! sends mail calls it.

pub mod api_error;
pub mod auth;
pub mod clock;
pub mod config;
pub mod dtos;
pub mod ids;
pub mod models;
pub mod repositories;
pub mod services;
pub mod similarity;
pub mod text;
pub mod utils;
