//! The verification of an envelope up to the point where files are read, and
//! the boundary that a foreign caller meets.

use vstd::prelude::*;
use crate::envelope::{envelope_of, Envelope, EnvelopeView};
use crate::manifest::{parse_manifest, record_views, records_of_text, FileRecord, RecordView};
use crate::outcome::{ErrorCode, Outcome};
use crate::walk::{start, FileWalk, WalkAction};

verus! {

/// The files that a decoded envelope asks to be checked. The signature comes
/// first: a manifest is read only once the signature over the payload is
/// accepted. An envelope without a manifest, or with an empty one, lists nothing.
pub open spec fn files_of_envelope(envelope: EnvelopeView) -> Result<Seq<RecordView>, Outcome> {
    if !(envelope.well_formed() && envelope.accepted()) {
        Err(Outcome::SignatureInvalid)
    } else {
        match envelope.manifest {
            None => Ok(Seq::empty()),
            Some(text) => records_of_text(text),
        }
    }
}

/// The files that the envelope in a buffer asks to be checked, or the outcome
/// that ends the verification before any file is read.
pub open spec fn listed_files(bytes: Seq<u8>) -> Result<Seq<RecordView>, Outcome> {
    match envelope_of(bytes) {
        Err(o) => Err(o),
        Ok(envelope) => files_of_envelope(envelope),
    }
}

/// The outcome of verifying a buffer whose envelope lists no file to read.
pub open spec fn outcome_before_files(bytes: Seq<u8>) -> Option<Outcome> {
    match listed_files(bytes) {
        Err(o) => Some(o),
        Ok(records) => if records.len() == 0 {
            Some(Outcome::Verified)
        } else {
            None
        },
    }
}

/// Checks the signature of a decoded envelope and reads its manifest.
pub fn check_envelope(envelope: &Envelope) -> (r: Result<Vec<FileRecord>, Outcome>)
    ensures
        match r {
            Ok(records) => files_of_envelope(envelope@) == Ok::<Seq<RecordView>, Outcome>(record_views(records@))
                && records@.len() == record_views(records@).len(),
            Err(o) => files_of_envelope(envelope@) == Err::<Seq<RecordView>, Outcome>(o),
        },
{
    if !envelope.signature_accepted() {
        return Err(Outcome::SignatureInvalid);
    }
    match &envelope.manifest {
        None => {
            let records: Vec<FileRecord> = Vec::new();
            assert(record_views(records@) =~= Seq::empty());
            Ok(records)
        },
        Some(text) => parse_manifest(text.as_str()),
    }
}

/// Decodes the envelope in a buffer, checks its signature and reads its manifest.
pub fn open_envelope(bytes: &[u8]) -> (r: Result<Vec<FileRecord>, Outcome>)
    ensures
        match r {
            Ok(records) => listed_files(bytes@) == Ok::<Seq<RecordView>, Outcome>(record_views(records@))
                && records@.len() == record_views(records@).len(),
            Err(o) => listed_files(bytes@) == Err::<Seq<RecordView>, Outcome>(o),
        },
{
    match Envelope::from_bytes(bytes) {
        Ok(envelope) => check_envelope(&envelope),
        Err(o) => Err(o),
    }
}

/// Begins the verification of a buffer handed over by a foreign caller, who may
/// hand over nothing. A missing or empty buffer is an argument error. Otherwise
/// the envelope is decoded and checked: a failure gives its code, and success
/// gives the walk over the listed files, at its beginning.
pub fn begin_verification(buffer: Option<&[u8]>) -> (r: Result<FileWalk, ErrorCode>)
    ensures
        match r {
            Ok(walk) => buffer.is_some() && buffer.unwrap()@.len() > 0 && listed_files(buffer.unwrap()@)
                == Ok::<Seq<RecordView>, Outcome>(walk@.records) && walk@ == start(walk@.records),
            Err(code) => if buffer.is_none() || buffer.unwrap()@.len() == 0 {
                code == ErrorCode::InvalidArgs
            } else {
                exists|o: Outcome|
                    listed_files(buffer.unwrap()@) == Err::<Seq<RecordView>, Outcome>(o) && code
                        == o.code_spec()
            },
        },
{
    let bytes = match buffer {
        Some(b) => b,
        None => { return Err(ErrorCode::InvalidArgs); },
    };
    if bytes.len() == 0 {
        return Err(ErrorCode::InvalidArgs);
    }
    match open_envelope(bytes) {
        Ok(records) => Ok(FileWalk::new(records)),
        Err(o) => Err(o.code()),
    }
}

/// The code with which a walk that has ended leaves the library.
pub fn finish_verification(walk: &FileWalk) -> (code: Option<ErrorCode>)
    ensures
        match code {
            Some(c) => exists|o: Outcome| walk@.action() == WalkAction::Done(o) && c == o.code_spec(),
            None => !walk@.finished(),
        },
{
    match walk.outcome() {
        Some(o) => Some(o.code()),
        None => None,
    }
}

} // verus!
