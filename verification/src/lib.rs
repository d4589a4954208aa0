//! Core of a small HTTP backend: authentication-context resolution,
//! unified error classification and response mapping, and a name-based
//! RPC dispatcher, all specified and verified. The HTTP transport and
//! the JSON wire encoding live outside this crate; every decision the
//! backend takes on a request is made here, on plain values.

pub mod ctx;
pub mod error;
pub mod json;
pub mod log;
pub mod model;
pub mod strutil;
pub mod web;

pub use ctx::Ctx;
pub use error::{ClientError, Error};
