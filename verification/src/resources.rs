//! The two halves of a byte stream.

use vstd::prelude::*;
use crate::error::IoError;

verus! {

/// The reading half of a byte stream.
pub trait NetRead {
    /// Takes at most `limit` bytes off the stream. No bytes at all means that
    /// the stream has ended.
    fn read(&mut self, limit: usize) -> (r: Result<Vec<u8>, IoError>)
        ensures
            r matches Ok(data) ==> data@.len() <= limit,
    ;
}

/// The writing half of a byte stream.
pub trait NetWrite {
    /// Hands the stream a prefix of `buf` and says how long that prefix was.
    fn write(&mut self, buf: &[u8]) -> (r: Result<usize, IoError>)
        ensures
            r matches Ok(n) ==> n <= buf@.len(),
    ;

    fn flush(&mut self) -> (r: Result<(), IoError>);
}

/// A failed attempt to take a resource apart: the resource is handed back
/// together with the reason.
pub struct SplitIoError<T> {
    pub original: T,
    pub error: IoError,
}

/// A failed attempt to put two halves together: they are handed back.
pub struct JoinError<R, W> {
    pub read: R,
    pub write: W,
}

} // verus!
