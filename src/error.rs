//! What can go wrong while opening an archive or reading one of its entries.
use vstd::prelude::*;

verus! {

/// An error of the archive reader.
#[derive(Debug, Clone, PartialEq)]
pub enum ArchiveReaderError {
    /// The decoding engine could not allocate its resource.
    AllocationFailure,
    /// The decoding engine rejected an operation; the text is its own diagnostic.
    Message(String),
    /// The entry data was asked for when no entry was positioned for reading.
    WrongState,
    /// The requested entry does not occur in the archive.
    NotFound,
}

/// The human-readable text of an error.
pub open spec fn describe_spec(e: ArchiveReaderError) -> Seq<char> {
    match e {
        ArchiveReaderError::AllocationFailure => "failed to allocate"@,
        ArchiveReaderError::Message(m) => "error: "@ + m@,
        ArchiveReaderError::WrongState => "tried to read from the archive in the wrong state"@,
        ArchiveReaderError::NotFound => "could not find the requested entry"@,
    }
}

impl ArchiveReaderError {
    /// The human-readable text of this error.
    pub fn describe(&self) -> (r: String)
        ensures
            r@ == describe_spec(*self),
    {
        match self {
            ArchiveReaderError::AllocationFailure => String::from_str("failed to allocate"),
            ArchiveReaderError::Message(m) => String::from_str("error: ").concat(m.as_str()),
            ArchiveReaderError::WrongState => String::from_str(
                "tried to read from the archive in the wrong state",
            ),
            ArchiveReaderError::NotFound => String::from_str("could not find the requested entry"),
        }
    }
}

} // verus!
