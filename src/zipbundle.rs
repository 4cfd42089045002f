use crate::error::Error;
use crate::handle::{InputHandle, InputOrigin};
use crate::provider::{name_text, resolve_entry, utf8_text, EntryFailure, OpenResult};
use std::io::{Read, Seek};
use vstd::prelude::*;
use zip::result::ZipError;
use zip::ZipArchive;

verus! {

#[verifier::external_type_specification]
#[verifier::external_body]
#[verifier::reject_recursive_types(R)]
pub struct ExZipArchive<R>(ZipArchive<R>);

/// Relies on `zip::ZipArchive::new`: reads the archive's central directory
/// from `reader`, or reports why it cannot.
#[verifier::external_body]
fn read_archive<R: Read + Seek>(reader: R) -> (r: Result<ZipArchive<R>, ZipError>) {
    ZipArchive::new(reader)
}

/// Relies on `zip::ZipArchive::by_name` to find the entry, on the variants
/// of `zip::result::ZipError` to sort a failed search, and on
/// `Read::read_to_end` of `zip::read::ZipFile` to decode the entry. The
/// size that `ZipFile::size` declares is only a hint: room for it is asked
/// of `Vec::try_reserve`, which reports a size it cannot grant instead of
/// panicking, and a refusal is ignored since the buffer grows as decoding
/// needs. The entry borrows the archive, so it is found and decoded within
/// this one call.
#[verifier::external_body]
fn decode_entry<R: Read + Seek>(zip: &mut ZipArchive<R>, name: &str) -> (r: Result<
    Vec<u8>,
    EntryFailure,
>) {
    let mut entry = match zip.by_name(name) {
        Ok(entry) => entry,
        Err(ZipError::Io(e)) => return Err(EntryFailure::Io(e)),
        Err(ZipError::FileNotFound) => return Err(EntryFailure::NotFound),
        Err(other) => return Err(EntryFailure::Other(other)),
    };
    let mut buf = Vec::new();
    let _ = buf.try_reserve(entry.size() as usize);
    match entry.read_to_end(&mut buf) {
        Ok(_) => Ok(buf),
        Err(e) => Err(EntryFailure::Decode(e)),
    }
}

/// An input provider over the entries of a Zip archive.
///
/// The archive's directory is read once, when the bundle is made. Each
/// lookup decodes the requested entry in full, so the handles it returns are
/// independent of the bundle and of each other.
#[verifier::reject_recursive_types(R)]
pub struct ZipBundle<R> {
    zip: ZipArchive<R>,
}

impl<R: Read + Seek> ZipBundle<R> {
    /// A bundle over the archive that `reader` holds. Fails, before any
    /// lookup, where `reader` does not hold a readable archive; the archive
    /// layer's report is kept as the cause.
    pub fn new(reader: R) -> (r: Result<ZipBundle<R>, Error>)
        ensures
            r matches Err(e) ==> e is Zip,
    {
        match read_archive(reader) {
            Ok(zip) => Ok(ZipBundle { zip }),
            Err(e) => Err(Error::Zip(e)),
        }
    }

    /// Looks `name` up in the archive and returns its decoded content as a
    /// handle tagged with `name` and the origin `Other`.
    ///
    /// A name that is not well-formed UTF-8 cannot name an entry, and a name
    /// the archive lacks is not here: both are misses. Every other failure
    /// of the archive or of decoding is returned as a hard error.
    pub fn input_open_name(&mut self, name: &[u8]) -> (r: OpenResult<InputHandle>)
        ensures
            utf8_text(name@) is None ==> r is NotAvailable,
            r matches OpenResult::Opened(h) ==> {
                &&& h@.name == name@
                &&& h@.pos == 0
                &&& h@.origin == InputOrigin::Other
            },
    {
        let text = match name_text(name) {
            Some(s) => s,
            None => return OpenResult::NotAvailable,
        };
        resolve_entry(name, decode_entry(&mut self.zip, text))
    }
}

} // verus!
