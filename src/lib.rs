//! A minimal static file server, as plain functions on values: the path of
//! a request line, what it resolves to on disk, the content type of a file,
//! the framing of a response, and the fallbacks taken when a read fails.
//! Reading the socket and the disk is left to the caller, which hands back
//! what it read.
//!
//! A request path loses exactly one leading `/` and is not confined to the
//! document root: `..` segments and `//`-prefixed absolute paths are served
//! as they stand.

pub mod content_type;
pub mod request;
pub mod resolve;
pub mod response;
pub mod handler;
pub mod lemmas;
