//! Typed client core for the Reddit REST API: OAuth2 grant flows, the
//! refresh-then-send request pipeline, full names and the tagged decoder.
pub mod auth;
pub mod client;
pub mod error;
pub mod fullname;
pub mod json;
pub mod options;
pub mod records;
pub mod request;
pub mod responses;
pub mod text;

pub use auth::{
    AnonymousAuthenticator, Authenticator, Authorized, CodeAuthenticator, PasswordAuthenticator,
    TokenAuthenticator,
};
pub use client::Client;
pub use error::Error;
