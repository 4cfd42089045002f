//! An input provider that serves named resources out of a Zip archive.
//!
//! A lookup resolves a name against the archive's directory, decodes the
//! whole entry into memory and hands it out as a seekable [`InputHandle`].
//! Every failure of the archive layer is sorted into one of three outcomes:
//! a handle, "not available here", or a hard error.

mod error;

pub use error::Error;
mod handle;

pub use handle::{remaining, seek_target, valid_position, HandleView, InputHandle, InputOrigin, SeekFrom};
mod provider;

pub use provider::{resolve_entry, utf8_text, EntryFailure, OpenResult};
mod zipbundle;

pub use zipbundle::ZipBundle;
