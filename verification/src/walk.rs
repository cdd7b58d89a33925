//! Checking the listed files, one after the other, as their content is read.
//!
//! The library does no I/O. It says what to do next, the caller does it and
//! reports what happened, and the walk moves on.

use vstd::prelude::*;
use vstd::utf8::encode_utf8;
use crate::digest::{absorbed, hasher_finalize, hasher_new, hasher_update, sha256, Hasher};
use crate::encoding::{digest_matches, hex_digits, same_ignoring_case};
use crate::manifest::{record_views, FileRecord, RecordView};
use crate::outcome::Outcome;

verus! {

/// What the caller is asked to do next.
#[derive(Clone, Copy, Debug, PartialEq, Eq, Structural)]
pub enum WalkAction {
    /// Open the file at the current path.
    Open,
    /// Read the next chunk of the open file.
    Read,
    /// Nothing: the walk has ended with this outcome.
    Done(Outcome),
}

/// What the caller reports back.
pub enum FileEvent<'a> {
    /// The file could not be opened.
    OpenFailed,
    /// The file is open.
    Opened,
    /// The next chunk of the open file.
    Data(&'a [u8]),
    /// The open file has no more content.
    EndOfFile,
    /// Reading the open file failed.
    ReadFailed,
}

/// A walk over the files of a manifest.
pub struct FileWalk {
    records: Vec<FileRecord>,
    position: usize,
    hasher: Option<Hasher>,
    failure: Option<Outcome>,
}

/// The state of a walk, as mathematical values.
pub struct WalkView {
    /// The files to check, in order.
    pub records: Seq<RecordView>,
    /// How many of them are done.
    pub position: nat,
    /// The content read so far of the file that is open, if one is.
    pub open: Option<Seq<u8>>,
    /// The failure that ended the walk, if one did.
    pub failure: Option<Outcome>,
}

/// Whether content has the digest that a record gives for it.
pub open spec fn content_matches(recorded: Seq<char>, content: Seq<u8>) -> bool {
    same_ignoring_case(encode_utf8(recorded), hex_digits(sha256(content)))
}

/// The state in which a walk over the given files begins.
pub open spec fn start(records: Seq<RecordView>) -> WalkView {
    WalkView { records, position: 0, open: None, failure: None }
}

impl WalkView {
    /// A file is open only while its record is the current one and nothing has failed.
    pub open spec fn well_formed(self) -> bool {
        &&& self.position <= self.records.len()
        &&& self.open.is_some() ==> self.position < self.records.len() && self.failure.is_none()
    }

    /// The walk has ended: with a failure, or with every file done.
    pub open spec fn finished(self) -> bool {
        self.failure.is_some() || self.position >= self.records.len()
    }

    /// The record whose file is to be opened or is being read.
    pub open spec fn current(self) -> RecordView
        recommends
            !self.finished(),
    {
        self.records[self.position as int]
    }

    /// What the caller is to do in this state.
    pub open spec fn action(self) -> WalkAction {
        match self.failure {
            Some(outcome) => WalkAction::Done(outcome),
            None => if self.position >= self.records.len() {
                WalkAction::Done(Outcome::Verified)
            } else if self.open.is_some() {
                WalkAction::Read
            } else {
                WalkAction::Open
            },
        }
    }

    /// The state with the current file done and no file open.
    pub open spec fn advanced(self) -> WalkView {
        WalkView { position: self.position + 1, open: None, ..self }
    }

    /// The state ended by a failure.
    pub open spec fn failed(self, outcome: Outcome) -> WalkView {
        WalkView { open: None, failure: Some(outcome), ..self }
    }

    /// The state after an event. A file that cannot be opened is passed over. A
    /// file that was read to its end is done if its content matches the record
    /// and ends the walk if it does not; a failed read ends the walk. An event
    /// that does not answer the state's action changes nothing.
    pub open spec fn after(self, event: FileEvent) -> WalkView {
        if self.finished() {
            self
        } else {
            match (self.open, event) {
                (None, FileEvent::OpenFailed) => self.advanced(),
                (None, FileEvent::Opened) => WalkView { open: Some(Seq::empty()), ..self },
                (Some(seen), FileEvent::Data(chunk)) => WalkView { open: Some(seen + chunk@), ..self },
                (Some(seen), FileEvent::EndOfFile) => if content_matches(self.current().sha256, seen) {
                    self.advanced()
                } else {
                    self.failed(Outcome::FileHashMismatch)
                },
                (Some(_), FileEvent::ReadFailed) => self.failed(Outcome::FileUnreadable),
                _ => self,
            }
        }
    }
}

impl View for FileWalk {
    type V = WalkView;

    closed spec fn view(&self) -> WalkView {
        WalkView {
            records: record_views(self.records@),
            position: self.position as nat,
            open: match self.hasher {
                Some(h) => Some(absorbed(h)),
                None => None,
            },
            failure: self.failure,
        }
    }
}

impl FileWalk {
    /// A walk over the given files, at its beginning.
    pub fn new(records: Vec<FileRecord>) -> (walk: FileWalk)
        ensures
            walk@ == start(record_views(records@)),
            walk@.well_formed(),
    {
        FileWalk { records, position: 0, hasher: None, failure: None }
    }

    /// What the caller is to do next.
    pub fn action(&self) -> (action: WalkAction)
        ensures
            action == self@.action(),
    {
        match self.failure {
            Some(outcome) => WalkAction::Done(outcome),
            None => if self.position >= self.records.len() {
                WalkAction::Done(Outcome::Verified)
            } else if self.hasher.is_some() {
                WalkAction::Read
            } else {
                WalkAction::Open
            },
        }
    }

    /// The outcome, once the walk has ended.
    pub fn outcome(&self) -> (outcome: Option<Outcome>)
        ensures
            match outcome {
                Some(o) => self@.action() == WalkAction::Done(o),
                None => !self@.finished(),
            },
    {
        match self.action() {
            WalkAction::Done(o) => Some(o),
            _ => None,
        }
    }

    /// The path of the current file, while the walk has not ended.
    pub fn current_path(&self) -> (path: Option<&str>)
        ensures
            match path {
                Some(p) => !self@.finished() && p@ == self@.current().path,
                None => self@.finished(),
            },
    {
        if self.failure.is_some() || self.position >= self.records.len() {
            None
        } else {
            Some(self.records[self.position].path.as_str())
        }
    }

    /// The path of the file at which the walk failed, once it has.
    pub fn failed_path(&self) -> (path: Option<&str>)
        ensures
            match path {
                Some(p) => self@.failure.is_some() && self@.position < self@.records.len() && p@
                    == self@.current().path,
                None => self@.failure.is_none() || self@.position >= self@.records.len(),
            },
    {
        if self.failure.is_some() && self.position < self.records.len() {
            Some(self.records[self.position].path.as_str())
        } else {
            None
        }
    }

    /// Takes the caller's report of what happened and moves on.
    pub fn step(&mut self, event: FileEvent<'_>)
        ensures
            final(self)@ == old(self)@.after(event),
            old(self)@.well_formed() ==> final(self)@.well_formed(),
    {
        if self.failure.is_some() || self.position >= self.records.len() {
            return;
        }
        let hasher = self.hasher.take();
        match (hasher, event) {
            (None, FileEvent::OpenFailed) => {
                self.position = self.position + 1;
            },
            (None, FileEvent::Opened) => {
                self.hasher = Some(hasher_new());
            },
            (Some(mut h), FileEvent::Data(chunk)) => {
                hasher_update(&mut h, chunk);
                self.hasher = Some(h);
            },
            (Some(h), FileEvent::EndOfFile) => {
                let digest = hasher_finalize(h);
                let recorded = self.records[self.position].sha256.as_str();
                if digest_matches(digest.as_slice(), recorded) {
                    self.position = self.position + 1;
                } else {
                    self.failure = Some(Outcome::FileHashMismatch);
                }
            },
            (Some(_), FileEvent::ReadFailed) => {
                self.failure = Some(Outcome::FileUnreadable);
            },
            (h, _) => {
                self.hasher = h;
            },
        }
    }
}

} // verus!
