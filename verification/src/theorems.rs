//! What holds of every verification, stated over the models of the other modules.

use vstd::prelude::*;
use crate::encoding::text_of;
use crate::envelope::{envelope_of, field_bytes, EnvelopeView};
use crate::json::{json_of_text, Json};
use crate::manifest::{records_of, RecordView};
use crate::outcome::{ErrorCode, Outcome};
use crate::signature::{signature_holds, PUBLIC_KEY_LEN, SIGNATURE_LEN};
use crate::snapshot::{files_outcome, read_of, verification_code, verification_outcome, FileRead, StoredFile};
use crate::verify::{files_of_envelope, listed_files, outcome_before_files};
use crate::walk::{content_matches, start, FileEvent, WalkAction, WalkView};

verus! {

/// The buffer holds a JSON document whose three required fields decode to the
/// given payload, signature and key.
pub open spec fn carries(bytes: Seq<u8>, tree: Json, payload: Seq<u8>, signature: Seq<u8>, key: Seq<u8>) -> bool {
    &&& text_of(bytes).is_some()
    &&& json_of_text(text_of(bytes).unwrap()) == Some(tree)
    &&& field_bytes(tree, "signed_payload_b64"@) == Some(payload)
    &&& field_bytes(tree, "signature_b64"@) == Some(signature)
    &&& field_bytes(tree, "pubkey_b64"@) == Some(key)
}

/// An envelope without a manifest verifies as soon as the scheme accepts its
/// signature over its payload under its key: there is no file to read.
pub proof fn lemma_signed_envelope_verifies(
    bytes: Seq<u8>,
    tree: Json,
    payload: Seq<u8>,
    signature: Seq<u8>,
    key: Seq<u8>,
)
    requires
        carries(bytes, tree, payload, signature, key),
        tree.text_member("manifest"@).is_none(),
        signature_holds(key, payload, signature),
    ensures
        listed_files(bytes) == Ok::<Seq<RecordView>, Outcome>(Seq::empty()),
        outcome_before_files(bytes) == Some(Outcome::Verified),
        start(Seq::empty()).action() == WalkAction::Done(Outcome::Verified),
{
}

/// An envelope whose three fields decode, but whose signature the scheme does
/// not accept over the payload under the key, is a signature error, whatever
/// else it holds. So an envelope altered after signing verifies only if the
/// scheme accepts the altered bytes.
pub proof fn lemma_rejected_signature_is_invalid(
    bytes: Seq<u8>,
    tree: Json,
    payload: Seq<u8>,
    signature: Seq<u8>,
    key: Seq<u8>,
)
    requires
        carries(bytes, tree, payload, signature, key),
        !signature_holds(key, payload, signature),
    ensures
        listed_files(bytes) == Err::<Seq<RecordView>, Outcome>(Outcome::SignatureInvalid),
        outcome_before_files(bytes) == Some(Outcome::SignatureInvalid),
{
}

/// Whenever the verification of a buffer gets as far as its files, the buffer
/// holds an envelope whose signature the scheme accepts.
pub proof fn lemma_listed_files_are_signed(bytes: Seq<u8>)
    requires
        listed_files(bytes) is Ok,
    ensures
        envelope_of(bytes) is Ok,
        signature_holds(
            envelope_of(bytes)->Ok_0.public_key,
            envelope_of(bytes)->Ok_0.signed_payload,
            envelope_of(bytes)->Ok_0.signature,
        ),
{
}

/// A signature or a key that decodes to another length than the scheme's is a
/// signature error.
pub proof fn lemma_wrong_length_is_signature_error(
    bytes: Seq<u8>,
    tree: Json,
    payload: Seq<u8>,
    signature: Seq<u8>,
    key: Seq<u8>,
)
    requires
        carries(bytes, tree, payload, signature, key),
        signature.len() != SIGNATURE_LEN || key.len() != PUBLIC_KEY_LEN,
    ensures
        envelope_of(bytes) == Err::<EnvelopeView, Outcome>(Outcome::SignatureInvalid),
        listed_files(bytes) == Err::<Seq<RecordView>, Outcome>(Outcome::SignatureInvalid),
{
}

/// A required field that is missing, is no string or is not base64 is a format
/// error, whatever the other fields hold.
pub proof fn lemma_undecodable_field_is_format_error(bytes: Seq<u8>, tree: Json)
    requires
        text_of(bytes).is_some(),
        json_of_text(text_of(bytes).unwrap()) == Some(tree),
        field_bytes(tree, "signed_payload_b64"@).is_none() || field_bytes(tree, "signature_b64"@).is_none()
            || field_bytes(tree, "pubkey_b64"@).is_none(),
    ensures
        listed_files(bytes) == Err::<Seq<RecordView>, Outcome>(Outcome::FormatInvalid),
{
}

/// A buffer that is not UTF-8, or whose text is not JSON, is a format error.
pub proof fn lemma_unreadable_buffer_is_format_error(bytes: Seq<u8>)
    requires
        text_of(bytes).is_none() || json_of_text(text_of(bytes).unwrap()).is_none(),
    ensures
        listed_files(bytes) == Err::<Seq<RecordView>, Outcome>(Outcome::FormatInvalid),
{
}

/// An accepted envelope whose manifest has an empty `files` array verifies:
/// there is no file to read.
pub proof fn lemma_empty_manifest_verifies(envelope: EnvelopeView, manifest: Json, files: Json)
    requires
        envelope.well_formed(),
        envelope.accepted(),
        envelope.manifest.is_some(),
        json_of_text(envelope.manifest.unwrap()) == Some(manifest),
        manifest.member("files"@) == Some(files),
        files.items() == Some(Seq::<Json>::empty()),
    ensures
        files_of_envelope(envelope) == Ok::<Seq<RecordView>, Outcome>(Seq::empty()),
        start(Seq::empty()).action() == WalkAction::Done(Outcome::Verified),
{
    assert(records_of(Seq::<Json>::empty()) =~= Seq::<RecordView>::empty());
}

/// An accepted envelope without a manifest lists no file.
pub proof fn lemma_absent_manifest_lists_nothing(envelope: EnvelopeView)
    requires
        envelope.well_formed(),
        envelope.accepted(),
        envelope.manifest.is_none(),
    ensures
        files_of_envelope(envelope) == Ok::<Seq<RecordView>, Outcome>(Seq::empty()),
{
}

/// A file that cannot be opened ends nothing: the walk passes on to the next
/// record with no failure, and the records that follow are still to be checked.
pub proof fn lemma_missing_file_is_passed_over(state: WalkView)
    requires
        state.well_formed(),
        state.action() == WalkAction::Open,
    ensures
        state.after(FileEvent::OpenFailed).failure.is_none(),
        state.after(FileEvent::OpenFailed).position == state.position + 1,
        state.after(FileEvent::OpenFailed).records == state.records,
        state.after(FileEvent::OpenFailed).open.is_none(),
        state.position + 1 < state.records.len() ==> state.after(FileEvent::OpenFailed).action()
            == WalkAction::Open,
{
}

/// A file that was read to its end is passed exactly if its content has the
/// recorded digest; otherwise the walk ends at once with a mismatch.
pub proof fn lemma_file_read_to_end(state: WalkView, content: Seq<u8>)
    requires
        state.well_formed(),
        state.open == Some(content),
    ensures
        content_matches(state.current().sha256, content) ==> state.after(FileEvent::EndOfFile)
            == state.advanced(),
        !content_matches(state.current().sha256, content) ==> state.after(FileEvent::EndOfFile).action()
            == WalkAction::Done(Outcome::FileHashMismatch),
{
}

/// A walk over one file whose content arrives in one chunk verifies exactly if
/// the content has the recorded digest.
pub proof fn lemma_single_file(record: RecordView, content: &[u8])
    ensures
        start(seq![record]).after(FileEvent::Opened).after(FileEvent::Data(content)).after(
            FileEvent::EndOfFile,
        ).action() == if content_matches(record.sha256, content@) {
            WalkAction::Done(Outcome::Verified)
        } else {
            WalkAction::Done(Outcome::FileHashMismatch)
        },
{
    let opened = start(seq![record]).after(FileEvent::Opened);
    assert(opened.open == Some(Seq::<u8>::empty()));
    let read = opened.after(FileEvent::Data(content));
    assert(Seq::<u8>::empty() + content@ =~= content@);
    assert(read.open == Some(content@));
    assert(read.current() == record);
}

/// Once a walk has ended, no event changes it.
pub proof fn lemma_finished_walk_stays(state: WalkView, event: FileEvent)
    requires
        state.finished(),
    ensures
        state.after(event) == state,
{
}

/// A well-formed walk stays well formed, never goes back, and keeps its records.
pub proof fn lemma_step_keeps_walk_well_formed(state: WalkView, event: FileEvent)
    requires
        state.well_formed(),
    ensures
        state.after(event).well_formed(),
        state.after(event).position >= state.position,
        state.after(event).records == state.records,
{
}

/// Against any snapshot, a signed envelope without a manifest verifies.
pub proof fn lemma_signed_envelope_succeeds(
    bytes: Seq<u8>,
    tree: Json,
    payload: Seq<u8>,
    signature: Seq<u8>,
    key: Seq<u8>,
    files: Seq<StoredFile>,
)
    requires
        bytes.len() > 0,
        carries(bytes, tree, payload, signature, key),
        tree.text_member("manifest"@).is_none(),
        signature_holds(key, payload, signature),
    ensures
        verification_outcome(bytes, files) == Outcome::Verified,
        verification_code(Some(bytes), files) == ErrorCode::Success,
{
}

/// Against any snapshot, an envelope whose signature the scheme does not accept
/// is a signature error and never a success.
pub proof fn lemma_rejected_signature_never_succeeds(
    bytes: Seq<u8>,
    tree: Json,
    payload: Seq<u8>,
    signature: Seq<u8>,
    key: Seq<u8>,
    files: Seq<StoredFile>,
)
    requires
        bytes.len() > 0,
        carries(bytes, tree, payload, signature, key),
        !signature_holds(key, payload, signature),
    ensures
        verification_outcome(bytes, files) == Outcome::SignatureInvalid,
        verification_code(Some(bytes), files) == ErrorCode::SignatureInvalid,
{
}

/// A verification succeeds only for an envelope whose signature the scheme accepts.
pub proof fn lemma_success_means_signed(bytes: Seq<u8>, files: Seq<StoredFile>)
    requires
        verification_code(Some(bytes), files) == ErrorCode::Success,
    ensures
        envelope_of(bytes) is Ok,
        signature_holds(
            envelope_of(bytes)->Ok_0.public_key,
            envelope_of(bytes)->Ok_0.signed_payload,
            envelope_of(bytes)->Ok_0.signature,
        ),
{
}

/// An envelope that lists no file verifies against any snapshot.
pub proof fn lemma_no_files_verify(bytes: Seq<u8>, files: Seq<StoredFile>)
    requires
        listed_files(bytes) == Ok::<Seq<RecordView>, Outcome>(Seq::empty()),
    ensures
        verification_outcome(bytes, files) == Outcome::Verified,
{
}

/// A manifest that lists one file verifies exactly if the file is missing or
/// its content has the recorded digest.
pub proof fn lemma_one_file(record: RecordView, files: Seq<StoredFile>)
    ensures
        files_outcome(seq![record], files) == match read_of(files, record.path) {
            FileRead::Missing => Outcome::Verified,
            FileRead::Broken => Outcome::FileUnreadable,
            FileRead::Content(content) => if content_matches(record.sha256, content) {
                Outcome::Verified
            } else {
                Outcome::FileHashMismatch
            },
        },
{
    assert(seq![record].drop_first() =~= Seq::<RecordView>::empty());
    assert(files_outcome(Seq::<RecordView>::empty(), files) == Outcome::Verified);
}

/// A record whose file is missing counts for nothing: the outcome is that of
/// the manifest without it, so the files before and after it are checked as if
/// it were not there.
pub proof fn lemma_missing_file_changes_nothing(records: Seq<RecordView>, files: Seq<StoredFile>, i: int)
    requires
        0 <= i < records.len(),
        read_of(files, records[i].path) is Missing,
    ensures
        files_outcome(records, files) == files_outcome(records.remove(i), files),
    decreases i,
{
    if i == 0 {
        assert(records.remove(0) =~= records.drop_first());
    } else {
        let rest = records.drop_first();
        lemma_missing_file_changes_nothing(rest, files, i - 1);
        assert(records.remove(i).drop_first() =~= rest.remove(i - 1));
        assert(records.remove(i)[0] == records[0]);
    }
}

/// A missing or empty buffer is an argument error, whatever the snapshot.
pub proof fn lemma_nothing_to_verify_is_an_argument_error(files: Seq<StoredFile>)
    ensures
        verification_code(None, files) == ErrorCode::InvalidArgs,
        verification_code(Some(Seq::<u8>::empty()), files) == ErrorCode::InvalidArgs,
{
}

/// Only a verified outcome leaves the library as success.
pub proof fn lemma_success_means_verified(outcome: Outcome)
    ensures
        (outcome.code_spec() == ErrorCode::Success) == (outcome == Outcome::Verified),
        outcome.code_spec() != ErrorCode::InvalidArgs,
{
}

} // verus!
