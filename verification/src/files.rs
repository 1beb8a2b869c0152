//! What the library decides about the files that its driver keeps: the
//! cache file of each provider and the configuration file.

pub mod config;

use vstd::prelude::*;
use vstd::string::*;

verus! {

/// Why no place for the files could be found.
#[derive(Debug, PartialEq, Eq)]
pub enum FsError {
    /// The operating system names no home directory.
    InvalidHomeDir,
}

impl FsError {
    /// The one-line message shown to the user.
    pub open spec fn message_text(self) -> Seq<char> {
        "no valid home directory path could be retrieved from the operating system"@
    }

    /// The one-line message shown to the user.
    pub fn message(&self) -> (text: String)
        ensures
            text@ == self.message_text(),
    {
        String::from_str("no valid home directory path could be retrieved from the operating system")
    }
}

/// Whether the configuration file was there before this run.
#[derive(Debug, PartialEq, Eq)]
pub enum ConfigFileStatus {
    /// The file at this path was made in this run, with the default content.
    Created(String),
    /// The file at this path was there already.
    Existing(String),
}

/// Whether a cache file counts as empty, by its length in bytes where the
/// file system told it: a length of zero is empty; a length that could not
/// be read is not.
pub fn file_is_empty(size: Option<u64>) -> (empty: bool)
    ensures
        empty == crate::provider::is_empty_file(size),
{
    match size {
        Some(n) => n == 0,
        None => false,
    }
}

} // verus!
