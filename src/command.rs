//! Messages that the reader handles between frames.

use std::path::PathBuf;
use vstd::prelude::*;

verus! {

#[verifier::external_type_specification]
#[verifier::external_body]
pub struct ExPathBuf(PathBuf);

/// What happened to the reader's documents.
pub enum PdfCommand {
    /// A file was read: its path and its bytes, for the active tab.
    LoadedData(PathBuf, Vec<u8>),
    /// Another tab became active.
    ChangedTab,
}

} // verus!
