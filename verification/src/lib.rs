//! Access control and request handling for a proxy in front of the Cloudflare DNS API.
//!
//! Users authenticate with a name and a key of their own; each user holds privileges on
//! zones (a record-name pattern, or superuser rights). The library decides, step by step,
//! whether a DNS update, creation or deletion asked for by a user may reach the Cloudflare
//! API, and what the client is answered. The database, the Cloudflare API and the web server
//! stay outside: a `session::Session` says what to ask of them and takes their answers.

pub mod access;
pub mod console;
pub mod credentials;
pub mod laws;
pub mod models;
pub mod pattern;
pub mod record;
pub mod session;

pub use models::{
    NewSite, NewUser, NewUserSitePrivilege, Site, UpdateRequest, UpdateResult, User, UserSitePrivilege,
};
