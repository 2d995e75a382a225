use vstd::prelude::*;

use crate::path::PathError;

verus! {

#[verifier::external_type_specification]
#[verifier::external_body]
pub struct ExIoError(std::io::Error);

/// The two ways an operation of this backend can fail.
#[derive(Debug)]
pub enum Error {
    /// A virtual path has no local counterpart.
    Path(PathError),
    /// The operating system or the completion queue refused the request.
    Io(std::io::Error),
}

} // verus!
