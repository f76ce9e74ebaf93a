//! Sans-I/O core of a lightweight adapter around a foreign TLS library.
//!
//! The crate decides; a front end performs. Every foreign primitive is named by a
//! [`sys::Call`], and every operation of a context or a connection is a small state
//! machine that asks for one thing at a time and is resumed with the answer.

#[allow(non_camel_case_types, non_snake_case, non_upper_case_globals)]
pub mod sys;
pub mod version;
pub mod error;
pub mod driver;
pub mod ctx;
pub mod ssl;
pub mod async_ssl;
pub mod laws;

pub use async_ssl::AsyncSsl;
pub use ctx::SslCtx;
pub use error::{ErrorStack, IoError, SslError};
pub use ssl::Ssl;
