//! Streaming access to archive containers: the decisions of an archive reader
//! whose decoding engine is driven from outside the library.
//!
//! `reader` holds the reader's state machine, `data` the gathering of an
//! entry's bytes, `source` the adapter that answers the engine's pull requests,
//! `search` the lookup of one named entry, and `laws` what holds of a reader
//! driven over a whole archive.
pub mod data;
pub mod error;
pub mod laws;
pub mod reader;
pub mod search;
pub mod source;

pub use data::{take_chunk, ReadStep};
pub use error::ArchiveReaderError;
pub use reader::{Advance, ArchiveReader, ArchiveState, ARCHIVE_EOF, ARCHIVE_OK};
pub use search::{search_step, SearchStep};
pub use source::{Reader, BLOCK_SIZE};
