//! A read-through decorator that feeds every byte it passes on into a
//! message digest and, when the stream ends or fails, delivers the digest
//! (or a failure notice) on a channel of its own.

mod outside;

pub mod error;
pub mod tap;
pub mod reader;
pub mod laws;

pub use reader::HashingReader;

pub use error::channel_error;
