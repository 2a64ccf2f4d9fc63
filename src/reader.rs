//! The archive reader's state machine.
//!
//! The decoding engine runs outside the library. Whoever drives it reports the
//! engine's status codes here, and the reader decides what they mean: whether an
//! entry was reached, whether the archive ended, and whether the current entry's
//! data may be read.
use vstd::prelude::*;

use crate::error::ArchiveReaderError;

verus! {

/// Status code of the decoding engine: the operation succeeded.
pub const ARCHIVE_OK: i32 = 0;

/// Status code of the decoding engine: there are no more entries.
pub const ARCHIVE_EOF: i32 = 1;

/// The three states of an archive reader.
#[derive(Clone, Copy, Debug, PartialEq, Eq, Structural)]
pub enum ArchiveState {
    /// Ready to advance: no header consumed yet, or the last entry's data was taken.
    Initialized,
    /// A header was just consumed; only in this state may the entry's data be read.
    ReadyForRead,
    /// The engine reported the end of the archive; no more entries will come.
    Eof,
}

/// What one advance of the reader came to.
#[derive(Clone, Debug, PartialEq)]
pub enum Advance {
    /// The next entry, with its name.
    Entry(String),
    /// No more entries.
    End,
    /// The engine reported an unrecoverable fault; the reader cannot go on.
    Fatal,
}

/// The abstract state of a reader: its state and the names it has yielded, in order.
pub ghost struct ReaderView {
    pub state: ArchiveState,
    pub entries: Seq<Seq<char>>,
}

/// The view of a reader just after the archive was opened.
pub open spec fn fresh_view() -> ReaderView {
    ReaderView { state: ArchiveState::Initialized, entries: Seq::empty() }
}

/// The state after the engine answered a request for the next header with `code`.
pub open spec fn advanced_state(s: ArchiveState, code: i32) -> ArchiveState {
    if s == ArchiveState::Eof {
        ArchiveState::Eof
    } else if code == ARCHIVE_OK {
        ArchiveState::ReadyForRead
    } else {
        ArchiveState::Eof
    }
}

/// What an advance yields when the engine answers with `code` and an entry named `name`.
pub open spec fn advance_outcome(s: ArchiveState, code: i32, name: String) -> Advance {
    if s == ArchiveState::Eof {
        Advance::End
    } else if code == ARCHIVE_OK {
        Advance::Entry(name)
    } else if code == ARCHIVE_EOF {
        Advance::End
    } else {
        Advance::Fatal
    }
}

/// The view after one advance.
pub open spec fn advanced_view(v: ReaderView, code: i32, name: Seq<char>) -> ReaderView {
    ReaderView {
        state: advanced_state(v.state, code),
        entries: if v.state != ArchiveState::Eof && code == ARCHIVE_OK {
            v.entries.push(name)
        } else {
            v.entries
        },
    }
}

/// The state after a request for the current entry's data.
pub open spec fn read_state(s: ArchiveState) -> ArchiveState {
    if s == ArchiveState::ReadyForRead {
        ArchiveState::Initialized
    } else {
        s
    }
}

/// Whether a request for the current entry's data is granted.
pub open spec fn read_outcome(s: ArchiveState) -> Result<(), ArchiveReaderError> {
    if s == ArchiveState::ReadyForRead {
        Ok(())
    } else {
        Err(ArchiveReaderError::WrongState)
    }
}

/// The result of opening an archive, from whether the engine's resource was
/// allocated, the engine's status code for the open, and its diagnostic.
pub open spec fn open_outcome(allocated: bool, code: i32, message: String) -> Result<
    (),
    ArchiveReaderError,
> {
    if !allocated {
        Err(ArchiveReaderError::AllocationFailure)
    } else if code != ARCHIVE_OK {
        Err(ArchiveReaderError::Message(message))
    } else {
        Ok(())
    }
}

/// The reader of one archive, in one of its three states.
pub struct ArchiveReader {
    state: ArchiveState,
    entries: Ghost<Seq<Seq<char>>>,
}

impl View for ArchiveReader {
    type V = ReaderView;

    closed spec fn view(&self) -> ReaderView {
        ReaderView { state: self.state, entries: self.entries@ }
    }
}

impl ArchiveReader {
    /// Decides the outcome of opening an archive: the engine's resource must have
    /// been allocated, and the open must have reported success.
    pub fn opened(allocated: bool, code: i32, message: String) -> (r: Result<
        ArchiveReader,
        ArchiveReaderError,
    >)
        ensures
            r is Ok <==> open_outcome(allocated, code, message) is Ok,
            r is Ok ==> r->Ok_0@ == fresh_view(),
            r is Err ==> open_outcome(allocated, code, message) == Err::<(), _>(r->Err_0),
    {
        if !allocated {
            Err(ArchiveReaderError::AllocationFailure)
        } else if code != ARCHIVE_OK {
            Err(ArchiveReaderError::Message(message))
        } else {
            Ok(ArchiveReader { state: ArchiveState::Initialized, entries: Ghost(Seq::empty()) })
        }
    }

    /// The current state.
    pub fn state(&self) -> (r: ArchiveState)
        ensures
            r == self@.state,
    {
        self.state
    }

    /// Whether the engine must be asked for the next header; once the archive has
    /// ended it must not be.
    pub fn needs_header(&self) -> (r: bool)
        ensures
            r == (self@.state != ArchiveState::Eof),
    {
        self.state != ArchiveState::Eof
    }

    /// Takes the engine's answer to a request for the next header: its status
    /// code, and the name of the entry it positioned when the code is
    /// `ARCHIVE_OK` (ignored otherwise). After the end, nothing is yielded again.
    pub fn advance(&mut self, code: i32, name: String) -> (r: Advance)
        ensures
            r == advance_outcome(old(self)@.state, code, name),
            final(self)@ == advanced_view(old(self)@, code, name@),
    {
        if self.state == ArchiveState::Eof {
            return Advance::End;
        }
        if code == ARCHIVE_OK {
            self.state = ArchiveState::ReadyForRead;
            self.entries = Ghost(self.entries@.push(name@));
            Advance::Entry(name)
        } else if code == ARCHIVE_EOF {
            self.state = ArchiveState::Eof;
            Advance::End
        } else {
            self.state = ArchiveState::Eof;
            Advance::Fatal
        }
    }

    /// Asks to read the current entry's data. Granted only right after a header
    /// was consumed; a granted request consumes the entry, so that its data is
    /// never read twice.
    pub fn begin_read(&mut self) -> (r: Result<(), ArchiveReaderError>)
        ensures
            r == read_outcome(old(self)@.state),
            final(self)@ == (ReaderView { state: read_state(old(self)@.state), ..old(self)@ }),
    {
        if self.state != ArchiveState::ReadyForRead {
            return Err(ArchiveReaderError::WrongState);
        }
        self.state = ArchiveState::Initialized;
        Ok(())
    }
}

} // verus!
