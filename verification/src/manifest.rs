//! The inner manifest: the files that were signed for, with their digests.

use vstd::prelude::*;
use crate::json::{json_of_text, parse_json, Json};
use crate::outcome::Outcome;

verus! {

/// One file of a manifest.
pub struct FileRecord {
    /// The path as the manifest gives it.
    pub path: String,
    /// The recorded SHA-256 digest, in hex.
    pub sha256: String,
}

/// What a [`FileRecord`] holds, as mathematical values.
pub struct RecordView {
    pub path: Seq<char>,
    pub sha256: Seq<char>,
}

impl View for FileRecord {
    type V = RecordView;

    open spec fn view(&self) -> RecordView {
        RecordView { path: self.path@, sha256: self.sha256@ }
    }
}

/// The views of a list of records, in order.
pub open spec fn record_views(records: Seq<FileRecord>) -> Seq<RecordView> {
    records.map_values(|r: FileRecord| r@)
}

/// The record that an entry of `files` stands for; `None` where `path` or
/// `sha256` is missing or holds no string.
pub open spec fn record_of(entry: Json) -> Option<RecordView> {
    match (entry.text_member("path"@), entry.text_member("sha256"@)) {
        (Some(path), Some(sha256)) => Some(RecordView { path, sha256 }),
        _ => None,
    }
}

/// The records of a list of entries, in order; an entry that stands for no
/// record is left out, and an entry that occurs twice is kept twice.
pub open spec fn records_of(entries: Seq<Json>) -> Seq<RecordView>
    decreases entries.len(),
{
    if entries.len() == 0 {
        Seq::empty()
    } else {
        let before = records_of(entries.drop_last());
        match record_of(entries.last()) {
            Some(record) => before.push(record),
            None => before,
        }
    }
}

/// Every entry is a JSON object.
pub open spec fn all_objects(entries: Seq<Json>) -> bool {
    forall|i: int| 0 <= i < entries.len() ==> (#[trigger] entries[i]) is Object
}

/// The records of a manifest document. Without a `files` member there are none;
/// a `files` member that is no array, or an entry of it that is no object, makes
/// the format invalid.
pub open spec fn records_of_tree(tree: Json) -> Result<Seq<RecordView>, Outcome> {
    match tree.member("files"@) {
        None => Ok(Seq::empty()),
        Some(files) => match files.items() {
            None => Err(Outcome::FormatInvalid),
            Some(entries) => if all_objects(entries) {
                Ok(records_of(entries))
            } else {
                Err(Outcome::FormatInvalid)
            },
        },
    }
}

/// The records of a manifest text, which must be JSON. An empty text has none
/// and is not parsed.
pub open spec fn records_of_text(text: Seq<char>) -> Result<Seq<RecordView>, Outcome> {
    if text.len() == 0 {
        Ok(Seq::empty())
    } else {
        match json_of_text(text) {
            None => Err(Outcome::FormatInvalid),
            Some(tree) => records_of_tree(tree),
        }
    }
}

/// Whether a text is a JSON document with a `signature` and an `assets` member,
/// as an asset manifest on disk has them.
pub open spec fn has_signature_and_assets(text: Seq<char>) -> bool {
    match json_of_text(text) {
        Some(tree) => tree.member("signature"@).is_some() && tree.member("assets"@).is_some(),
        None => false,
    }
}

/// Looks at the content of a manifest file: `Some` says whether it has both a
/// `signature` and an `assets` member, and `None` that it is not JSON at all.
pub fn manifest_has_required_fields(content: &str) -> (r: Option<bool>)
    ensures
        match r {
            Some(both) => json_of_text(content@).is_some() && both == has_signature_and_assets(content@),
            None => json_of_text(content@).is_none(),
        },
{
    match parse_json(content) {
        Some(tree) => Some(tree.get("signature").is_some() && tree.get("assets").is_some()),
        None => None,
    }
}

/// Reads the records of a manifest document.
pub fn read_records(tree: &Json) -> (r: Result<Vec<FileRecord>, Outcome>)
    ensures
        match r {
            Ok(records) => records_of_tree(*tree) == Ok::<Seq<RecordView>, Outcome>(record_views(records@))
                && records@.len() == record_views(records@).len(),
            Err(o) => records_of_tree(*tree) == Err::<Seq<RecordView>, Outcome>(o),
        },
{
    let mut records: Vec<FileRecord> = Vec::new();
    let files = match tree.get("files") {
        Some(f) => f,
        None => {
            assert(record_views(records@) =~= Seq::empty());
            return Ok(records);
        },
    };
    let entries = match files.as_array() {
        Some(e) => e,
        None => { return Err(Outcome::FormatInvalid); },
    };
    let mut i: usize = 0;
    assert(entries@.take(0) =~= Seq::empty());
    assert(record_views(records@) =~= Seq::empty());
    while i < entries.len()
        invariant
            i <= entries@.len(),
            tree.member("files"@) == Some(*files),
            files.items() == Some(entries@),
            all_objects(entries@.take(i as int)),
            record_views(records@) == records_of(entries@.take(i as int)),
        decreases entries@.len() - i,
    {
        let entry = &entries[i];
        if !entry.is_object() {
            assert(!all_objects(entries@));
            return Err(Outcome::FormatInvalid);
        }
        let ghost seen = entries@.take(i as int);
        let ghost next = entries@.take(i + 1);
        assert(next.drop_last() =~= seen);
        assert(next.last() == entries@[i as int]);
        assert(all_objects(next)) by {
            assert forall|j: int| 0 <= j < next.len() implies (#[trigger] next[j]) is Object by {
                if j < i {
                    assert(next[j] == seen[j]);
                }
            }
        }
        let ghost before = records@;
        match (entry.get_str("path"), entry.get_str("sha256")) {
            (Some(path), Some(sha256)) => {
                let record = FileRecord { path: path.to_owned(), sha256: sha256.to_owned() };
                records.push(record);
                assert(record_views(records@) =~= record_views(before).push(record@));
            },
            _ => {},
        }
        i += 1;
    }
    assert(entries@.take(i as int) =~= entries@);
    Ok(records)
}

/// Reads the records of a manifest text.
pub fn parse_manifest(text: &str) -> (r: Result<Vec<FileRecord>, Outcome>)
    ensures
        match r {
            Ok(records) => records_of_text(text@) == Ok::<Seq<RecordView>, Outcome>(record_views(records@))
                && records@.len() == record_views(records@).len(),
            Err(o) => records_of_text(text@) == Err::<Seq<RecordView>, Outcome>(o),
        },
{
    if text.is_empty() {
        let records: Vec<FileRecord> = Vec::new();
        assert(record_views(records@) =~= Seq::empty());
        return Ok(records);
    }
    match parse_json(text) {
        Some(tree) => read_records(&tree),
        None => Err(Outcome::FormatInvalid),
    }
}

} // verus!
