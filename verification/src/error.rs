//! The kinds of failure the pipeline distinguishes.


use vstd::prelude::*;
use crate::client::ErrorData;


verus! {

/// Why a crawl step or a download failed.
#[derive(Debug, PartialEq)]
pub enum Error {
    /// The remote service answered with its error envelope.
    Remote(ErrorData),
    /// The connection failed, or the answer could not be decoded.
    Transport(String),
    /// The asset reference has no file name or no extension.
    MalformedReference,
    /// The local file could not be written.
    Io(String),
}

} // verus!
