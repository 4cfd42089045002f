use crate::error::Error;
use crate::handle::{HandleView, InputHandle, InputOrigin};
use vstd::prelude::*;
use zip::result::ZipError;

verus! {

/// The outcome of asking a provider for a named input.
#[derive(Debug)]
pub enum OpenResult<T> {
    /// The provider has the input.
    Opened(T),
    /// The provider has nothing under that name; another provider may.
    NotAvailable,
    /// The provider is broken; looking elsewhere would hide the fault.
    Failed(Error),
}

/// Why an archive entry could not be handed out, sorted into the cases
/// that a provider treats differently.
#[derive(Debug)]
pub enum EntryFailure {
    /// The archive has no entry of that name.
    NotFound,
    /// The byte source failed while the archive's records were read.
    Io(std::io::Error),
    /// Any other refusal of the archive layer (corruption, an unsupported
    /// feature).
    Other(ZipError),
    /// The entry was found but its data could not be decoded in full.
    Decode(std::io::Error),
}

/// The text that a byte string spells in UTF-8, if it is well-formed.
pub uninterp spec fn utf8_text(b: Seq<u8>) -> Option<Seq<char>>;

/// Relies on `std::str::from_utf8`: succeeds exactly on well-formed UTF-8
/// and then yields the text it spells.
#[verifier::external_body]
pub(crate) fn name_text(name: &[u8]) -> (r: Option<&str>)
    ensures
        r is Some <==> utf8_text(name@) is Some,
        r matches Some(s) ==> s@ == utf8_text(name@)->0,
{
    std::str::from_utf8(name).ok()
}

/// The result of an open request for `name`, given what became of the
/// archive entry: its fully decoded bytes, or the reason there are none.
///
/// Decoded bytes become a handle over exactly those bytes, tagged with
/// `name` and the origin `Other`. A missing entry is a miss. Every other
/// failure is a hard error that carries its cause unchanged.
pub fn resolve_entry(name: &[u8], outcome: Result<Vec<u8>, EntryFailure>) -> (r: OpenResult<
    InputHandle,
>)
    ensures
        match outcome {
            Ok(buf) => r matches OpenResult::Opened(h) && h@ == (HandleView {
                name: name@,
                data: buf@,
                pos: 0,
                origin: InputOrigin::Other,
            }),
            Err(EntryFailure::NotFound) => r is NotAvailable,
            Err(EntryFailure::Io(e)) => r == OpenResult::<InputHandle>::Failed(Error::Io(e)),
            Err(EntryFailure::Other(z)) => r == OpenResult::<InputHandle>::Failed(Error::Zip(z)),
            Err(EntryFailure::Decode(e)) => r == OpenResult::<InputHandle>::Failed(Error::Io(e)),
        },
{
    match outcome {
        Ok(buf) => OpenResult::Opened(InputHandle::new(name, buf, InputOrigin::Other)),
        Err(EntryFailure::NotFound) => OpenResult::NotAvailable,
        Err(EntryFailure::Io(e)) => OpenResult::Failed(Error::Io(e)),
        Err(EntryFailure::Other(z)) => OpenResult::Failed(Error::Zip(z)),
        Err(EntryFailure::Decode(e)) => OpenResult::Failed(Error::Io(e)),
    }
}

} // verus!
