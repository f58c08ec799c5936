//! The library of a small service for posting notes by mail.
//!
//! Its core brings a database schema up to date: migration scripts are
//! known by the digest of their text ([`fingerprint`]), kept in a fixed
//! order ([`registry`]), checked against what the database says was
//! applied ([`validator`]) and applied by a machine that the caller drives
//! inside one transaction ([`engine`]). What a run of that machine does to
//! a database is stated and proved in [`model`].
//!
//! The rest is what the service shows and sends: markup ([`html`]), pages
//! ([`page`]), moments in time as the pages word them ([`moment`]), text
//! for addresses ([`encoding`]) and mail ([`email`]).

pub mod email;
pub mod encoding;
pub mod engine;
pub mod fingerprint;
pub mod html;
pub mod model;
pub mod moment;
pub mod page;
pub mod registry;
pub mod validator;
