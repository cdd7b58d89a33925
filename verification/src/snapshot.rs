//! Verification against files that are already in memory.
//!
//! A snapshot stands for the file system: it lists paths with what reading them
//! gives. A path that it does not list cannot be opened.

use vstd::prelude::*;
use crate::manifest::RecordView;
use crate::outcome::{ErrorCode, Outcome};
use crate::verify::{begin_verification, listed_files};
use crate::walk::{content_matches, FileEvent, FileWalk, WalkAction, WalkView};

verus! {

/// A file of a snapshot.
pub struct StoredFile {
    /// The path under which the file is found.
    pub path: String,
    /// The whole content, or `None` where the file opens but cannot be read.
    pub content: Option<Vec<u8>>,
}

/// What reading a path gives.
pub enum FileRead {
    /// The file cannot be opened.
    Missing,
    /// The file opens and reading it fails.
    Broken,
    /// The file is read to its end, with this content.
    Content(Seq<u8>),
}

/// What reading a path gives in a snapshot: what the first file of that path
/// says, and `Missing` where there is none.
pub open spec fn read_of(files: Seq<StoredFile>, path: Seq<char>) -> FileRead
    decreases files.len(),
{
    if files.len() == 0 {
        FileRead::Missing
    } else if files[0].path@ == path {
        match files[0].content {
            Some(content) => FileRead::Content(content@),
            None => FileRead::Broken,
        }
    } else {
        read_of(files.drop_first(), path)
    }
}

/// The outcome of checking the records in order against a snapshot. A missing
/// file is passed over; the first file that cannot be read, or whose content
/// has another digest than the recorded one, ends the check.
pub open spec fn files_outcome(records: Seq<RecordView>, files: Seq<StoredFile>) -> Outcome
    decreases records.len(),
{
    if records.len() == 0 {
        Outcome::Verified
    } else {
        match read_of(files, records[0].path) {
            FileRead::Missing => files_outcome(records.drop_first(), files),
            FileRead::Broken => Outcome::FileUnreadable,
            FileRead::Content(content) => if content_matches(records[0].sha256, content) {
                files_outcome(records.drop_first(), files)
            } else {
                Outcome::FileHashMismatch
            },
        }
    }
}

/// The outcome of verifying the envelope in a buffer against a snapshot.
pub open spec fn verification_outcome(bytes: Seq<u8>, files: Seq<StoredFile>) -> Outcome {
    match listed_files(bytes) {
        Err(o) => o,
        Ok(records) => files_outcome(records, files),
    }
}

/// The code that a foreign caller gets for a buffer, which may be missing, and
/// a snapshot.
pub open spec fn verification_code(buffer: Option<Seq<u8>>, files: Seq<StoredFile>) -> ErrorCode {
    match buffer {
        None => ErrorCode::InvalidArgs,
        Some(bytes) => if bytes.len() == 0 {
            ErrorCode::InvalidArgs
        } else {
            verification_outcome(bytes, files).code_spec()
        },
    }
}

/// The outcome that a walk without an open file is heading for.
pub open spec fn outcome_from(state: WalkView, files: Seq<StoredFile>) -> Outcome {
    match state.failure {
        Some(o) => o,
        None => if state.position >= state.records.len() {
            Outcome::Verified
        } else {
            files_outcome(state.records.skip(state.position as int), files)
        },
    }
}

/// Finds the first file of a path in a snapshot.
fn find_file<'a>(files: &'a Vec<StoredFile>, path: &str) -> (found: Option<&'a StoredFile>)
    ensures
        match found {
            Some(file) => read_of(files@, path@) == match file.content {
                Some(content) => FileRead::Content(content@),
                None => FileRead::Broken,
            },
            None => read_of(files@, path@) is Missing,
        },
{
    let wanted = path.to_owned();
    let mut i: usize = 0;
    assert(files@.skip(0) =~= files@);
    while i < files.len()
        invariant
            i <= files@.len(),
            wanted@ == path@,
            read_of(files@, path@) == read_of(files@.skip(i as int), path@),
        decreases files@.len() - i,
    {
        let ghost rest = files@.skip(i as int);
        assert(rest[0] == files@[i as int]);
        assert(rest.drop_first() =~= files@.skip(i + 1));
        let file = &files[i];
        if file.path == wanted {
            return Some(file);
        }
        i += 1;
    }
    None
}

/// Runs a walk that has no file open to its end, reading from a snapshot.
fn finish_walk(walk: &mut FileWalk, files: &Vec<StoredFile>) -> (outcome: Outcome)
    requires
        old(walk)@.open.is_none(),
    ensures
        outcome == outcome_from(old(walk)@, files@),
        final(walk)@.action() == WalkAction::Done(outcome),
        final(walk)@.records == old(walk)@.records,
{
    let ghost goal = outcome_from(walk@, files@);
    let ghost records = walk@.records;
    loop
        invariant
            walk@.open.is_none(),
            walk@.records == records,
            outcome_from(walk@, files@) == goal,
        ensures
            walk@.records == records,
            walk@.action() == WalkAction::Done(goal),
        decreases walk@.records.len() - walk@.position + (if walk@.failure.is_some() { 0int } else { 1int }),
    {
        let path = match walk.current_path() {
            Some(p) => p,
            None => { break ; },
        };
        let ghost before = walk@;
        let ghost rest = before.records.skip(before.position as int);
        assert(rest[0] == before.current());
        assert(rest.drop_first() =~= before.records.skip(before.position as int + 1));
        match find_file(files, path) {
            None => {
                walk.step(FileEvent::OpenFailed);
            },
            Some(file) => {
                walk.step(FileEvent::Opened);
                match &file.content {
                    None => {
                        walk.step(FileEvent::ReadFailed);
                    },
                    Some(content) => {
                        walk.step(FileEvent::Data(content.as_slice()));
                        assert(Seq::<u8>::empty() + content@ =~= content@);
                        walk.step(FileEvent::EndOfFile);
                    },
                }
            },
        }
    }
    match walk.outcome() {
        Some(o) => o,
        None => Outcome::Verified,
    }
}

/// Verifies the envelope in a buffer against a snapshot, from the arguments to
/// the code.
pub fn verify_with_files(buffer: Option<&[u8]>, files: &Vec<StoredFile>) -> (code: ErrorCode)
    ensures
        code == verification_code(
            match buffer {
                Some(bytes) => Some(bytes@),
                None => None,
            },
            files@,
        ),
{
    match begin_verification(buffer) {
        Err(code) => code,
        Ok(mut walk) => {
            assert(walk@.records.skip(0) =~= walk@.records);
            let outcome = finish_walk(&mut walk, files);
            outcome.code()
        },
    }
}

} // verus!
