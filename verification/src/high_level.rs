//! What the resources that are built on sections have in common: they can be
//! checked against what the game expects of them, and encoded as the bytes
//! that stand for them in a file.
use crate::dat_error::{DATError, ErrorKind};
use vstd::prelude::*;

verus! {

/// A resource that can be encoded as the bytes that stand for it in a file.
pub trait AsBytes {
    /// The bytes that stand for the resource in a file, or why it has none.
    spec fn encoding(&self) -> Result<Seq<u8>, ErrorKind>;

    /// Encodes the resource as the bytes that stand for it in a file.
    ///
    /// Fails with `Overflow` where a part of the resource is longer than its
    /// record can hold.
    fn as_bytes(&self) -> (bytes: Result<Vec<u8>, DATError>)
        ensures
            match self.encoding() {
                Ok(encoding) => bytes matches Ok(b) && b@ == encoding,
                Err(kind) => bytes matches Err(err) && err.spec_kind() == kind,
            },
    ;
}

/// A resource that can be checked against what the game expects of it.
pub trait Validate {
    /// What is wrong with the resource, if anything is.
    spec fn refusal(&self) -> Option<ErrorKind>;

    /// Checks the resource against what the game expects of it. Returns the
    /// first thing that is wrong, or `None` where nothing is.
    fn validate(&self) -> (err: Option<DATError>)
        ensures
            match self.refusal() {
                Some(kind) => err matches Some(e) && e.spec_kind() == kind,
                None => err is None,
            },
    ;
}

} // verus!
