//! Request and response types.

pub mod account;
pub mod auth;
pub mod environment;
pub mod institution;
pub mod item;
pub mod link_token;
pub mod webhook;
