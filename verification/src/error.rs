//! Error types for the `.lnk` decoder.

use vstd::prelude::*;

verus! {

/// Errors arising from decoding a `.lnk` byte buffer.
#[derive(Clone, Copy, Debug, PartialEq, Eq, Structural)]
pub enum Error {
    /// The file holding the buffer could not be opened. Produced only by
    /// callers that do the reading; the decoder itself never returns it.
    Open,
    /// An error occurred while decoding the header fields.
    HeaderError(HeaderError),
    /// An error occurred while decoding the string-data sections.
    StringDataError(StringDataError),
    /// An error occurred while decoding the link target ID list section.
    LinkTargetIdListError(LinkTargetIdListError),
    /// An error occurred while decoding the link info section.
    LinkInfoError(LinkInfoError),
    /// An error occurred while decoding the extra data section.
    ExtraDataError(ExtraDataError),
}

/// An error occurred while decoding the header fields.
#[derive(Clone, Copy, Debug, PartialEq, Eq, Structural)]
pub enum HeaderError {
    /// Fewer bytes remained than the fixed header layout requires.
    Read,
}

/// An error occurred while decoding the link target ID list section.
#[derive(Clone, Copy, Debug, PartialEq, Eq, Structural)]
pub enum LinkTargetIdListError {
    /// Fewer bytes remained than the section's length prefix requires.
    Read,
}

/// An error occurred while decoding the link info section.
#[derive(Clone, Copy, Debug, PartialEq, Eq, Structural)]
pub enum LinkInfoError {
    /// Fewer bytes remained than the fixed link info header requires.
    Read,
    /// Bytes of a narrow path string were not valid text.
    StringConversion,
    /// Bytes of a wide path string were not valid text.
    WideStringConversion,
}

/// An error occurred while decoding the string-data sections.
#[derive(Clone, Copy, Debug, PartialEq, Eq, Structural)]
pub enum StringDataError {
    /// Fewer bytes remained than a string entry's length prefix requires.
    Read,
    /// A wide string entry held invalid UTF-16 data.
    WideStringConversion,
    /// A narrow string entry held invalid text.
    StringConversion,
    /// A wide string entry could not be read into units.
    WideStringRead,
}

/// An error occurred while decoding the extra data section.
#[derive(Clone, Copy, Debug, PartialEq, Eq, Structural)]
pub enum ExtraDataError {
    /// Fewer bytes remained than a block's declared layout requires.
    Read,
    /// A block tag matched no known (size, signature) pair; the fields hold
    /// the declared size and signature.
    UnknownBlock(u32, u32),
    /// A wide string inside a block held invalid UTF-16 data.
    WideStringConversion,
    /// A queried string property is not present in the decoded block.
    MissingStringData,
}

} // verus!
