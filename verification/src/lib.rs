//! A minimal pastebin library.
//!
//! Users submit arbitrary text, receive a randomly generated short token,
//! and later retrieve the text by that token. This crate holds the verified
//! core: the token generator, the paste store with its insert and lookup
//! operations, and the construction of the HTML pages and redirect targets
//! that the HTTP surface serves.

pub mod handlers;
pub mod pages;
pub mod store;
pub mod token;
