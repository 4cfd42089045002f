use vstd::prelude::*;
use zip::result::ZipError;

verus! {

#[verifier::external_type_specification]
#[verifier::external_body]
pub struct ExIoError(std::io::Error);

#[verifier::external_type_specification]
#[verifier::external_body]
pub struct ExZipError(ZipError);

/// A hard failure: the bundle could not be read or is not a usable archive.
///
/// The cause is kept exactly as the layer below reported it.
#[derive(Debug)]
pub enum Error {
    /// The byte source failed while the archive was being read.
    Io(std::io::Error),
    /// The archive layer refused the bundle (bad format, unsupported feature).
    Zip(ZipError),
}

} // verus!
