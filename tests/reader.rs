use libarchive_rs::{
    search_step, take_chunk, Advance, ArchiveReader, ArchiveReaderError, ArchiveState, ReadStep,
    Reader, SearchStep, ARCHIVE_EOF, ARCHIVE_OK, BLOCK_SIZE,
};

const ARCHIVE_FATAL: i32 = -30;

fn open_ok() -> ArchiveReader {
    ArchiveReader::opened(true, ARCHIVE_OK, String::new()).unwrap()
}

/// Feeds the reader the engine's answers for an archive with these entries and
/// returns every name it yielded.
fn list_names(reader: &mut ArchiveReader, names: &[&str]) -> Vec<String> {
    let mut out = vec![];
    let mut i = 0;
    while reader.needs_header() {
        let (code, name) = if i < names.len() {
            (ARCHIVE_OK, names[i].to_string())
        } else {
            (ARCHIVE_EOF, String::new())
        };
        i += 1;
        match reader.advance(code, name) {
            Advance::Entry(n) => out.push(n),
            Advance::End => break,
            Advance::Fatal => panic!("unexpected fault"),
        }
    }
    out
}

/// Searches a simulated archive for `target` and, when found, reads the entry's
/// data from its stored blocks.
fn extract(entries: &[(&str, Vec<Vec<u8>>)], target: &str) -> (Result<Vec<u8>, ArchiveReaderError>, usize) {
    let mut reader = open_ok();
    let target = target.to_string();
    let mut visited = 0;
    loop {
        let outcome = if visited < entries.len() {
            reader.advance(ARCHIVE_OK, entries[visited].0.to_string())
        } else {
            reader.advance(ARCHIVE_EOF, String::new())
        };
        match search_step(&outcome, &target) {
            SearchStep::Continue => visited += 1,
            SearchStep::Found => {
                if let Err(e) = reader.begin_read() {
                    return (Err(e), visited);
                }
                let mut data = vec![];
                let mut blocks = entries[visited].1.clone();
                blocks.push(vec![]);
                for block in blocks {
                    let mut buf = vec![0u8; BLOCK_SIZE];
                    buf[..block.len()].copy_from_slice(&block);
                    match take_chunk(&mut data, block.len() as i64, &buf) {
                        ReadStep::More => {}
                        ReadStep::Finished => break,
                        ReadStep::Failed => panic!("unexpected fault"),
                    }
                }
                return (Ok(data), visited + 1);
            }
            SearchStep::Missing => return (Err(ArchiveReaderError::NotFound), visited),
            SearchStep::Fatal => panic!("unexpected fault"),
        }
    }
}

#[test]
fn open_reports_allocation_failure() {
    let r = ArchiveReader::opened(false, ARCHIVE_OK, String::new());
    assert_eq!(r.err(), Some(ArchiveReaderError::AllocationFailure));
}

#[test]
fn open_reports_engine_message_on_corrupted_source() {
    let r = ArchiveReader::opened(true, ARCHIVE_FATAL, "Unrecognized archive format".to_string());
    assert_eq!(
        r.err(),
        Some(ArchiveReaderError::Message("Unrecognized archive format".to_string()))
    );
}

#[test]
fn open_failure_takes_precedence_over_status() {
    let r = ArchiveReader::opened(false, ARCHIVE_FATAL, "ignored".to_string());
    assert_eq!(r.err(), Some(ArchiveReaderError::AllocationFailure));
}

#[test]
fn opened_reader_starts_initialized() {
    let reader = open_ok();
    assert_eq!(reader.state(), ArchiveState::Initialized);
    assert!(reader.needs_header());
}

#[test]
fn advance_yields_entry_and_positions_for_read() {
    let mut reader = open_ok();
    let a = reader.advance(ARCHIVE_OK, "a.txt".to_string());
    assert_eq!(a, Advance::Entry("a.txt".to_string()));
    assert_eq!(reader.state(), ArchiveState::ReadyForRead);
}

#[test]
fn list_yields_entries_in_order() {
    let mut reader = open_ok();
    let names = list_names(&mut reader, &["a.txt", "b.txt", "c.txt"]);
    assert_eq!(names, vec!["a.txt", "b.txt", "c.txt"]);
    assert_eq!(reader.state(), ArchiveState::Eof);
}

#[test]
fn list_of_empty_archive_is_empty() {
    let mut reader = open_ok();
    assert!(list_names(&mut reader, &[]).is_empty());
    assert_eq!(reader.state(), ArchiveState::Eof);
}

#[test]
fn list_keeps_equal_names() {
    let mut reader = open_ok();
    let names = list_names(&mut reader, &["x", "x", "y"]);
    assert_eq!(names, vec!["x", "x", "y"]);
}

#[test]
fn list_of_thirty_six_entries_is_complete() {
    let expected: Vec<String> = (401..=436).map(|i| format!("SPA00{}.JPG", i)).collect();
    let refs: Vec<&str> = expected.iter().map(|s| s.as_str()).collect();
    let mut reader = open_ok();
    let names = list_names(&mut reader, &refs);
    assert_eq!(names.len(), 36);
    assert_eq!(names[0], "SPA00401.JPG");
    assert_eq!(names[35], "SPA00436.JPG");
    assert_eq!(names, expected);
}

#[test]
fn end_is_final() {
    let mut reader = open_ok();
    assert_eq!(reader.advance(ARCHIVE_EOF, String::new()), Advance::End);
    assert!(!reader.needs_header());
    for code in [ARCHIVE_OK, ARCHIVE_EOF, ARCHIVE_FATAL] {
        assert_eq!(reader.advance(code, "late.txt".to_string()), Advance::End);
        assert_eq!(reader.state(), ArchiveState::Eof);
    }
    assert_eq!(reader.begin_read(), Err(ArchiveReaderError::WrongState));
}

#[test]
fn fatal_status_ends_the_reader() {
    let mut reader = open_ok();
    assert_eq!(reader.advance(ARCHIVE_FATAL, String::new()), Advance::Fatal);
    assert_eq!(reader.state(), ArchiveState::Eof);
    assert_eq!(reader.advance(ARCHIVE_OK, "a".to_string()), Advance::End);
}

#[test]
fn read_before_any_header_is_wrong_state() {
    let mut reader = open_ok();
    assert_eq!(reader.begin_read(), Err(ArchiveReaderError::WrongState));
    assert_eq!(reader.state(), ArchiveState::Initialized);
}

#[test]
fn second_read_without_advance_is_wrong_state() {
    let mut reader = open_ok();
    reader.advance(ARCHIVE_OK, "a.txt".to_string());
    assert_eq!(reader.begin_read(), Ok(()));
    assert_eq!(reader.state(), ArchiveState::Initialized);
    assert_eq!(reader.begin_read(), Err(ArchiveReaderError::WrongState));
}

#[test]
fn advance_after_read_allows_next_read() {
    let mut reader = open_ok();
    reader.advance(ARCHIVE_OK, "a.txt".to_string());
    assert_eq!(reader.begin_read(), Ok(()));
    reader.advance(ARCHIVE_OK, "b.txt".to_string());
    assert_eq!(reader.begin_read(), Ok(()));
}

#[test]
fn skipping_an_unread_entry_is_allowed() {
    let mut reader = open_ok();
    reader.advance(ARCHIVE_OK, "a.txt".to_string());
    let b = reader.advance(ARCHIVE_OK, "b.txt".to_string());
    assert_eq!(b, Advance::Entry("b.txt".to_string()));
    assert_eq!(reader.begin_read(), Ok(()));
}

#[test]
fn take_chunk_appends_front_of_buffer() {
    let mut data = vec![1u8];
    let step = take_chunk(&mut data, 2, &[7, 8, 9]);
    assert_eq!(step, ReadStep::More);
    assert_eq!(data, vec![1, 7, 8]);
}

#[test]
fn take_chunk_zero_finishes() {
    let mut data = vec![1u8, 2];
    assert_eq!(take_chunk(&mut data, 0, &[7, 8, 9]), ReadStep::Finished);
    assert_eq!(data, vec![1, 2]);
}

#[test]
fn take_chunk_negative_fails() {
    let mut data = vec![1u8];
    assert_eq!(take_chunk(&mut data, -30, &[7, 8, 9]), ReadStep::Failed);
    assert_eq!(data, vec![1]);
}

#[test]
fn take_chunk_full_buffer() {
    let buf: Vec<u8> = (0..BLOCK_SIZE).map(|i| (i % 251) as u8).collect();
    let mut data = vec![];
    assert_eq!(take_chunk(&mut data, BLOCK_SIZE as i64, &buf), ReadStep::More);
    assert_eq!(data, buf);
}

#[test]
fn extract_each_of_three_entries() {
    let entries = vec![
        ("a.txt", vec![b"a".to_vec()]),
        ("b.txt", vec![b"b".to_vec()]),
        ("c.txt", vec![b"c".to_vec()]),
    ];
    assert_eq!(extract(&entries, "a.txt").0, Ok(b"a".to_vec()));
    assert_eq!(extract(&entries, "b.txt").0, Ok(b"b".to_vec()));
    assert_eq!(extract(&entries, "c.txt").0, Ok(b"c".to_vec()));
}

#[test]
fn extract_joins_blocks_in_order() {
    let entries = vec![("big.bin", vec![vec![1u8, 2, 3], vec![4u8], vec![5u8, 6]])];
    assert_eq!(extract(&entries, "big.bin").0, Ok(vec![1, 2, 3, 4, 5, 6]));
}

#[test]
fn extract_stops_at_first_match() {
    let entries = vec![
        ("a.txt", vec![b"first".to_vec()]),
        ("a.txt", vec![b"second".to_vec()]),
    ];
    let (r, visited) = extract(&entries, "a.txt");
    assert_eq!(r, Ok(b"first".to_vec()));
    assert_eq!(visited, 1);
}

#[test]
fn extract_missing_name_visits_every_entry() {
    let entries = vec![
        ("a.txt", vec![b"a".to_vec()]),
        ("b.txt", vec![b"b".to_vec()]),
        ("c.txt", vec![b"c".to_vec()]),
    ];
    let (r, visited) = extract(&entries, "d.txt");
    assert_eq!(r, Err(ArchiveReaderError::NotFound));
    assert_eq!(visited, 3);
}

#[test]
fn extract_compares_names_exactly() {
    let entries = vec![("A.txt", vec![b"a".to_vec()]), ("a.txt ", vec![b"b".to_vec()])];
    assert_eq!(extract(&entries, "a.txt").0, Err(ArchiveReaderError::NotFound));
}

#[test]
fn search_step_cases() {
    let target = "b.txt".to_string();
    assert_eq!(search_step(&Advance::Entry("a.txt".to_string()), &target), SearchStep::Continue);
    assert_eq!(search_step(&Advance::Entry("b.txt".to_string()), &target), SearchStep::Found);
    assert_eq!(search_step(&Advance::End, &target), SearchStep::Missing);
    assert_eq!(search_step(&Advance::Fatal, &target), SearchStep::Fatal);
}

#[test]
fn adapter_buffer_is_one_zeroed_block() {
    let r = Reader::new(5u32);
    assert_eq!(r.reader, 5);
    assert_eq!(r.buffer.len(), BLOCK_SIZE);
    assert!(r.buffer.iter().all(|b| *b == 0));
}

#[test]
fn adapter_reply_forwards_counts() {
    let r = Reader::new(());
    assert_eq!(r.reply(Some(0)), 0);
    assert_eq!(r.reply(Some(17)), 17);
    assert_eq!(r.reply(Some(BLOCK_SIZE)), BLOCK_SIZE as i64);
}

#[test]
fn adapter_reply_reports_failures() {
    let r = Reader::new(());
    assert_eq!(r.reply(None), -1);
    assert_eq!(r.reply(Some(BLOCK_SIZE + 1)), -1);
}

#[test]
fn error_descriptions() {
    assert_eq!(ArchiveReaderError::AllocationFailure.describe(), "failed to allocate");
    assert_eq!(
        ArchiveReaderError::Message("truncated input".to_string()).describe(),
        "error: truncated input"
    );
    assert_eq!(
        ArchiveReaderError::WrongState.describe(),
        "tried to read from the archive in the wrong state"
    );
    assert_eq!(
        ArchiveReaderError::NotFound.describe(),
        "could not find the requested entry"
    );
}
