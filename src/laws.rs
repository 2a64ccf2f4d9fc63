//! What holds of a reader driven over a whole archive.
//!
//! An archive of entries named `names` is seen by the reader as the engine's
//! answers to successive header requests: `ARCHIVE_OK` with each name in
//! container order, then `ARCHIVE_EOF`. An entry's data is seen as the counts of
//! successive data reads: the size of each non-empty block, then zero.
use vstd::prelude::*;

use crate::data::{gathered, read_step, ReadStep};
use crate::error::ArchiveReaderError;
use crate::reader::{
    advance_outcome, advanced_view, fresh_view, read_outcome, read_state, Advance, ArchiveState,
    ReaderView, ARCHIVE_EOF, ARCHIVE_OK,
};
use crate::search::{search_decision, search_step_spec, SearchStep};

verus! {

/// The engine's answers to header requests over an archive whose entries are `names`.
pub open spec fn archive_reports(names: Seq<Seq<char>>) -> Seq<(i32, Seq<char>)> {
    Seq::new(names.len(), |i: int| (ARCHIVE_OK, names[i])).push((ARCHIVE_EOF, Seq::empty()))
}

/// The reader's view after it advanced once for each of `reports`.
pub open spec fn drive(v: ReaderView, reports: Seq<(i32, Seq<char>)>) -> ReaderView
    decreases reports.len(),
{
    if reports.len() == 0 {
        v
    } else {
        drive(advanced_view(v, reports[0].0, reports[0].1), reports.drop_first())
    }
}

/// A search for `target` over `reports`: the reader's view where it stopped, and why.
pub open spec fn search_run(
    v: ReaderView,
    reports: Seq<(i32, Seq<char>)>,
    target: Seq<char>,
) -> (ReaderView, SearchStep)
    decreases reports.len(),
{
    if reports.len() == 0 {
        (v, SearchStep::Continue)
    } else {
        let next = advanced_view(v, reports[0].0, reports[0].1);
        let step = search_decision(v.state, reports[0].0, reports[0].1, target);
        if step == SearchStep::Continue {
            search_run(next, reports.drop_first(), target)
        } else {
            (next, step)
        }
    }
}

/// The counts and buffers of the engine's data reads over an entry stored as
/// the blocks `chunks`.
pub open spec fn entry_reports(chunks: Seq<Seq<u8>>) -> Seq<(int, Seq<u8>)> {
    Seq::new(chunks.len(), |i: int| (chunks[i].len() as int, chunks[i])).push((0, Seq::empty()))
}

/// The data gathered from `data` on over `reports`, and the step where it stopped.
pub open spec fn drain(data: Seq<u8>, reports: Seq<(int, Seq<u8>)>) -> (Seq<u8>, ReadStep)
    decreases reports.len(),
{
    if reports.len() == 0 {
        (data, ReadStep::More)
    } else {
        let next = gathered(data, reports[0].0, reports[0].1);
        let step = read_step(reports[0].0);
        if step == ReadStep::More {
            drain(next, reports.drop_first())
        } else {
            (next, step)
        }
    }
}

proof fn lemma_drive_reports(v: ReaderView, names: Seq<Seq<char>>)
    requires
        v.state != ArchiveState::Eof,
    ensures
        drive(v, archive_reports(names)) == (ReaderView {
            state: ArchiveState::Eof,
            entries: v.entries + names,
        }),
    decreases names.len(),
{
    let reports = archive_reports(names);
    if names.len() == 0 {
        let next = advanced_view(v, reports[0].0, reports[0].1);
        assert(reports.drop_first() =~= Seq::empty());
        assert(v.entries + names =~= v.entries);
        assert(drive(next, reports.drop_first()) == next);
    } else {
        let next = advanced_view(v, reports[0].0, reports[0].1);
        assert(reports.drop_first() =~= archive_reports(names.drop_first()));
        lemma_drive_reports(next, names.drop_first());
        assert(next.entries + names.drop_first() =~= v.entries + names);
    }
}

/// Listing an archive yields every entry's name exactly once, in container
/// order, and leaves the reader at the end of the archive.
pub proof fn lemma_lists_every_entry(names: Seq<Seq<char>>)
    ensures
        drive(fresh_view(), archive_reports(names)) == (ReaderView {
            state: ArchiveState::Eof,
            entries: names,
        }),
{
    lemma_drive_reports(fresh_view(), names);
    assert(Seq::<Seq<char>>::empty() + names =~= names);
}

/// Once the archive has ended, advancing yields nothing and changes nothing,
/// whatever the engine would answer.
pub proof fn lemma_end_is_final(v: ReaderView, reports: Seq<(i32, Seq<char>)>)
    requires
        v.state == ArchiveState::Eof,
    ensures
        drive(v, reports) == v,
        forall|code: i32, name: String|
            advance_outcome(ArchiveState::Eof, code, name) == Advance::End,
    decreases reports.len(),
{
    if reports.len() > 0 {
        lemma_end_is_final(v, reports.drop_first());
    }
}

/// A second request for an entry's data, with no advance since the first,
/// fails with `WrongState`, whatever the first came to.
pub proof fn lemma_read_once(s: ArchiveState)
    ensures
        read_outcome(read_state(s)) == Err::<(), _>(ArchiveReaderError::WrongState),
{
}

/// The search step taken on an advance outcome is the one that the model of a
/// search takes on the engine's answer behind it.
pub proof fn lemma_search_step_agrees(s: ArchiveState, code: i32, name: String, target: String)
    ensures
        search_step_spec(advance_outcome(s, code, name), target@) == search_decision(
            s,
            code,
            name@,
            target@,
        ),
{
}

proof fn lemma_search_reports(v: ReaderView, names: Seq<Seq<char>>, target: Seq<char>)
    requires
        v.state != ArchiveState::Eof,
    ensures
        ({
            let (w, step) = search_run(v, archive_reports(names), target);
            let k = w.entries.len() - v.entries.len();
            &&& step == SearchStep::Found || step == SearchStep::Missing
            &&& step == SearchStep::Missing <==> !names.contains(target)
            &&& step == SearchStep::Missing ==> w == (ReaderView {
                state: ArchiveState::Eof,
                entries: v.entries + names,
            })
            &&& step == SearchStep::Found ==> {
                &&& w.state == ArchiveState::ReadyForRead
                &&& 1 <= k <= names.len()
                &&& w.entries == v.entries + names.take(k)
                &&& names[k - 1] == target
                &&& !names.take(k - 1).contains(target)
            }
        }),
    decreases names.len(),
{
    let reports = archive_reports(names);
    let next = advanced_view(v, reports[0].0, reports[0].1);
    if names.len() == 0 {
        assert(v.entries + names =~= v.entries);
    } else if names[0] == target {
        assert(names.contains(target));
        assert(names.take(1) =~= seq![names[0]]);
        assert(names.take(0) =~= Seq::<Seq<char>>::empty());
    } else {
        let rest = names.drop_first();
        assert(reports.drop_first() =~= archive_reports(rest));
        lemma_search_reports(next, rest, target);
        let (w, step) = search_run(next, archive_reports(rest), target);
        assert(search_run(v, reports, target) == (w, step));
        assert(names.contains(target) <==> rest.contains(target)) by {
            if names.contains(target) {
                let i = choose|i: int| 0 <= i < names.len() && names[i] == target;
                assert(rest[i - 1] == target);
            }
            if rest.contains(target) {
                let i = choose|i: int| 0 <= i < rest.len() && rest[i] == target;
                assert(names[i + 1] == target);
            }
        }
        if step == SearchStep::Missing {
            assert(next.entries + rest =~= v.entries + names);
        }
        if step == SearchStep::Found {
            let k = w.entries.len() - next.entries.len();
            assert(next.entries + rest.take(k) =~= v.entries + names.take(k + 1));
            assert(names[k] == rest[k - 1]);
            assert(!names.take(k).contains(target)) by {
                if names.take(k).contains(target) {
                    let i = choose|i: int| 0 <= i < k && names.take(k)[i] == target;
                    assert(i != 0);
                    assert(rest.take(k - 1)[i - 1] == target);
                }
            }
        }
    }
}

/// A search for a name absent from the archive reports it missing only after
/// every entry was yielded and the archive ended; a search for a present name
/// stops at its first occurrence, ready to read that entry's data.
pub proof fn lemma_search_exhausts(names: Seq<Seq<char>>, target: Seq<char>)
    ensures
        ({
            let (w, step) = search_run(fresh_view(), archive_reports(names), target);
            &&& step == SearchStep::Found || step == SearchStep::Missing
            &&& step == SearchStep::Missing <==> !names.contains(target)
            &&& step == SearchStep::Missing ==> w == (ReaderView {
                state: ArchiveState::Eof,
                entries: names,
            })
            &&& step == SearchStep::Found ==> {
                &&& w.state == ArchiveState::ReadyForRead
                &&& 1 <= w.entries.len() <= names.len()
                &&& w.entries == names.take(w.entries.len() as int)
                &&& w.entries.last() == target
                &&& !w.entries.drop_last().contains(target)
            }
        }),
{
    let v = fresh_view();
    lemma_search_reports(v, names, target);
    let (w, step) = search_run(v, archive_reports(names), target);
    assert(v.entries + names =~= names);
    if step == SearchStep::Found {
        let k = w.entries.len() as int;
        assert(w.entries =~= names.take(k));
        assert(w.entries.drop_last() =~= names.take(k - 1));
    }
}

proof fn lemma_drain_reports(data: Seq<u8>, chunks: Seq<Seq<u8>>)
    requires
        forall|i: int| 0 <= i < chunks.len() ==> #[trigger] chunks[i].len() > 0,
    ensures
        drain(data, entry_reports(chunks)) == (data + chunks.flatten(), ReadStep::Finished),
    decreases chunks.len(),
{
    let reports = entry_reports(chunks);
    if chunks.len() == 0 {
        assert(data + chunks.flatten() =~= data);
    } else {
        let c = chunks[0];
        let rest = chunks.drop_first();
        assert(reports.drop_first() =~= entry_reports(rest));
        assert(c.take(c.len() as int) =~= c);
        assert forall|i: int| 0 <= i < rest.len() implies #[trigger] rest[i].len() > 0 by {
            assert(rest[i] == chunks[i + 1]);
        }
        lemma_drain_reports(data + c, rest);
        assert(data + c + rest.flatten() =~= data + chunks.flatten());
    }
}

/// Reading an entry gathers exactly the bytes stored for it: every block the
/// engine hands over, in order, and nothing else.
pub proof fn lemma_gathers_whole_entry(chunks: Seq<Seq<u8>>)
    requires
        forall|i: int| 0 <= i < chunks.len() ==> #[trigger] chunks[i].len() > 0,
    ensures
        drain(Seq::empty(), entry_reports(chunks)) == (chunks.flatten(), ReadStep::Finished),
{
    lemma_drain_reports(Seq::empty(), chunks);
    assert(Seq::<u8>::empty() + chunks.flatten() =~= chunks.flatten());
}

/// Extracting `target` from an archive with entries `names` whose data is
/// stored as the blocks `contents`: search for the name, ask to read, gather
/// the data. `None` when the search or the read did not succeed.
pub open spec fn extract_run(
    names: Seq<Seq<char>>,
    contents: Seq<Seq<Seq<u8>>>,
    target: Seq<char>,
) -> Option<Seq<u8>> {
    let (w, step) = search_run(fresh_view(), archive_reports(names), target);
    if step == SearchStep::Found && read_outcome(w.state) is Ok {
        let (data, end) = drain(Seq::empty(), entry_reports(contents[w.entries.len() - 1]));
        if end == ReadStep::Finished {
            Some(data)
        } else {
            None
        }
    } else {
        None
    }
}

/// Extracting a name yields exactly the data stored for its first occurrence in
/// the archive, and nothing when no entry has that name.
pub proof fn lemma_extracts_stored_data(
    names: Seq<Seq<char>>,
    contents: Seq<Seq<Seq<u8>>>,
    target: Seq<char>,
    i: int,
)
    requires
        names.len() == contents.len(),
        forall|j: int, b: int|
            0 <= j < contents.len() && 0 <= b < contents[j].len() ==> #[trigger] contents[j][b].len()
                > 0,
    ensures
        !names.contains(target) ==> extract_run(names, contents, target) is None,
        0 <= i < names.len() && names[i] == target && !names.take(i).contains(target)
            ==> extract_run(names, contents, target) == Some(contents[i].flatten()),
{
    lemma_search_exhausts(names, target);
    let (w, step) = search_run(fresh_view(), archive_reports(names), target);
    if step == SearchStep::Found {
        let k = w.entries.len() - 1;
        assert(w.entries[k] == target);
        assert(names[k] == target);
        assert(!names.take(k).contains(target)) by {
            assert(w.entries.drop_last() =~= names.take(k));
        }
        assert(forall|b: int| 0 <= b < contents[k].len() ==> #[trigger] contents[k][b].len() > 0);
        lemma_gathers_whole_entry(contents[k]);
        if 0 <= i < names.len() && names[i] == target && !names.take(i).contains(target) {
            if i < k {
                assert(names.take(k)[i] == target);
            }
            if k < i {
                assert(names.take(i)[k] == target);
            }
        }
    } else if 0 <= i < names.len() && names[i] == target {
        assert(names.contains(target));
    }
}

} // verus!
