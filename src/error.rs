//! Errors that the decorator reports besides those of the stream it wraps.

use vstd::prelude::*;
use std::sync::mpsc::SendError;
use crate::outside::other_error;

verus! {

/// Maps a failed completion send to the error that the read call reports.
pub fn channel_error<T>(e: SendError<T>) -> (r: std::io::Error) {
    let msg = "stream ended but its completion could not be delivered: the receiver is gone".to_owned();
    other_error(msg)
}

} // verus!
