//! The index of the document library: what is remembered of each document, what of it is
//! still true, and in which order documents are read again.

use std::collections::{HashMap, HashSet};
use vstd::prelude::*;

use crate::text::{blank, concat, decimal, decimal_string, hex_padded, is_blank};

verus! {

broadcast use vstd::std_specs::hash::group_hash_axioms;

/// The name of the index file.
pub const INDEX_FILE_NAME: &'static str = ".library-index-v1.json";

/// The version of the format of the index file.
pub const INDEX_SCHEMA_VERSION: u32 = 1;

/// The size above which an index file is not read.
pub const MAX_INDEX_BYTES: u64 = 67_108_864;

/// How many documents are reported at once.
pub const METADATA_BATCH_SIZE: usize = 64;

/// How long documents are collected before they are reported, in nanoseconds.
pub const METADATA_BATCH_INTERVAL: u128 = 16_000_000;

/// How long changes are collected before the index is written, in nanoseconds.
pub const INDEX_WRITE_DEBOUNCE: u128 = 250_000_000;

/// How long the worker sleeps while there is nothing to write, in nanoseconds.
pub const IDLE_TIMEOUT: u128 = 1_000_000_000;

/// The text of an identifier: 32 hexadecimal digits in groups of 8, 4, 4, 4 and 12.
pub open spec fn id_text(id: u128) -> Seq<char> {
    hex_padded((id / 0x1_0000_0000_0000_0000_0000_0000) as nat, 8) + "-"@ + hex_padded(
        (id / 0x1_0000_0000_0000_0000_0000) as nat,
        4,
    ) + "-"@ + hex_padded((id / 0x1_0000_0000_0000_0000) as nat, 4) + "-"@ + hex_padded(
        (id / 0x1_0000_0000_0000) as nat,
        4,
    ) + "-"@ + hex_padded(id as nat, 12)
}

/// `Uuid::from_u128` takes the 128 bits of an identifier, most significant first, and
/// `Uuid`'s `Display` writes them in lower-case hexadecimal, in groups of 8, 4, 4, 4 and
/// 12 digits with hyphens between them.
#[verifier::external_body]
pub(crate) fn uuid_text(id: u128) -> (text: String)
    ensures
        text@ == id_text(id),
{
    uuid::Uuid::from_u128(id).to_string()
}

/// What tells whether a manifest file has changed: its length and the time of its last
/// change, in nanoseconds from the Unix epoch.
#[derive(Clone, Copy, PartialEq, Eq, Structural)]
pub struct ManifestFingerprint {
    pub byte_len: u64,
    pub modified_at: Option<i128>,
}

/// A document that was found in the library.
#[derive(Clone, Copy, PartialEq, Eq, Structural)]
pub struct DocumentSkeleton {
    pub document_id: u128,
    pub manifest_fingerprint: ManifestFingerprint,
}

/// What the library shows of a document.
pub struct DocumentSummary {
    pub document_id: u128,
    pub title: String,
    pub revision: u64,
    /// The time of the last change, in nanoseconds from the Unix epoch.
    pub updated_at: i128,
    pub preview_revision: Option<u64>,
    /// The preview's path below the directory of all documents.
    pub preview_path: Option<String>,
    pub manifest_fingerprint: ManifestFingerprint,
}

/// What the index remembers of a document.
pub struct IndexedDocument {
    pub document_id: u128,
    pub title: String,
    pub revision: u64,
    pub updated_at: i128,
    pub preview_revision: Option<u64>,
    pub manifest_byte_len: u64,
    pub manifest_modified_ns: Option<u128>,
}

/// The contents of the index file.
pub struct LibraryIndexFile {
    pub schema_version: u32,
    pub documents: Vec<IndexedDocument>,
}

/// The nanoseconds from the Unix epoch to a moment; none for a moment before it.
pub open spec fn nanos_of(time: Option<i128>) -> Option<u128> {
    match time {
        Some(time) if time >= 0 => Some(time as u128),
        _ => None,
    }
}

/// The moment so many nanoseconds after the Unix epoch, as far as a clock that counts
/// signed 64-bit seconds reaches.
pub open spec fn time_of(nanos: u128) -> Option<i128> {
    if nanos / 1_000_000_000 <= i64::MAX {
        Some(nanos as i128)
    } else {
        None
    }
}

/// The nanoseconds from the Unix epoch to a moment; none for a moment before it.
pub fn system_time_to_nanos(value: Option<i128>) -> (nanos: Option<u128>)
    ensures
        nanos == nanos_of(value),
{
    match value {
        Some(time) => {
            if time >= 0 {
                Some(time as u128)
            } else {
                None
            }
        },
        None => None,
    }
}

/// The moment so many nanoseconds after the Unix epoch, as far as a clock that counts
/// signed 64-bit seconds reaches.
pub fn nanos_to_system_time(value: u128) -> (time: Option<i128>)
    ensures
        time == time_of(value),
{
    if value / 1_000_000_000 <= i64::MAX as u128 {
        Some(value as i128)
    } else {
        None
    }
}

/// What the index remembers of a document with this summary.
pub open spec fn remembered(summary: DocumentSummary) -> IndexedDocument {
    IndexedDocument {
        document_id: summary.document_id,
        title: summary.title,
        revision: summary.revision,
        updated_at: summary.updated_at,
        preview_revision: summary.preview_revision,
        manifest_byte_len: summary.manifest_fingerprint.byte_len,
        manifest_modified_ns: nanos_of(summary.manifest_fingerprint.modified_at),
    }
}

impl IndexedDocument {
    /// A second entry with the same contents.
    pub fn copy(&self) -> (other: IndexedDocument)
        ensures
            other == *self,
    {
        IndexedDocument {
            document_id: self.document_id,
            title: self.title.clone(),
            revision: self.revision,
            updated_at: self.updated_at,
            preview_revision: self.preview_revision,
            manifest_byte_len: self.manifest_byte_len,
            manifest_modified_ns: self.manifest_modified_ns,
        }
    }

    /// What the index remembers of a document with this summary.
    pub fn from_summary(summary: &DocumentSummary) -> (entry: IndexedDocument)
        ensures
            entry == remembered(*summary),
    {
        IndexedDocument {
            document_id: summary.document_id,
            title: summary.title.clone(),
            revision: summary.revision,
            updated_at: summary.updated_at,
            preview_revision: summary.preview_revision,
            manifest_byte_len: summary.manifest_fingerprint.byte_len,
            manifest_modified_ns: system_time_to_nanos(summary.manifest_fingerprint.modified_at),
        }
    }

    /// The fingerprint that the manifest had.
    pub open spec fn fingerprint(&self) -> ManifestFingerprint {
        ManifestFingerprint {
            byte_len: self.manifest_byte_len,
            modified_at: match self.manifest_modified_ns {
                Some(nanos) => time_of(nanos),
                None => None,
            },
        }
    }

    /// The fingerprint that the manifest had.
    pub fn manifest_fingerprint(&self) -> (fingerprint: ManifestFingerprint)
        ensures
            fingerprint == self.fingerprint(),
    {
        ManifestFingerprint {
            byte_len: self.manifest_byte_len,
            modified_at: match self.manifest_modified_ns {
                Some(nanos) => nanos_to_system_time(nanos),
                None => None,
            },
        }
    }

    /// Whether `summary` is what the library shows of this entry: a preview only where it
    /// was made of the present revision.
    pub open spec fn shown_as(&self, summary: DocumentSummary) -> bool {
        &&& summary.document_id == self.document_id
        &&& summary.title == self.title
        &&& summary.revision == self.revision
        &&& summary.updated_at == self.updated_at
        &&& summary.preview_revision == self.preview_revision
        &&& summary.manifest_fingerprint == self.fingerprint()
        &&& match summary.preview_path {
            Some(path) => self.preview_revision == Some(self.revision) && path@ == id_text(
                self.document_id,
            ) + "/"@ + id_text(self.document_id) + ".preview.png"@,
            None => self.preview_revision != Some(self.revision),
        }
    }

    /// What the library shows of this entry.
    pub fn to_summary(&self) -> (summary: DocumentSummary)
        ensures
            self.shown_as(summary),
    {
        let has_preview = match self.preview_revision {
            Some(preview) => preview == self.revision,
            None => false,
        };
        let preview_path: Option<String> = if has_preview {
            let id = uuid_text(self.document_id);
            let mut path = concat(id.as_str(), "/");
            path.append(id.as_str());
            path.append(".preview.png");
            Some(path)
        } else {
            None
        };
        DocumentSummary {
            document_id: self.document_id,
            title: self.title.clone(),
            revision: self.revision,
            updated_at: self.updated_at,
            preview_revision: self.preview_revision,
            preview_path,
            manifest_fingerprint: self.manifest_fingerprint(),
        }
    }

    /// Whether an entry can be believed: it has a title, and no preview of a revision that
    /// is yet to come.
    pub open spec fn valid(&self) -> bool {
        &&& !blank(self.title@)
        &&& self.preview_revision matches Some(preview) ==> preview <= self.revision
    }
}

/// What is known of the index file before it is read.
#[derive(Clone, Copy, PartialEq, Eq, Structural)]
pub struct IndexMetadata {
    pub regular_file: bool,
    pub symlink: bool,
    pub byte_len: u64,
}

/// Whether the index file may be read.
pub fn check_index_metadata(metadata: &IndexMetadata) -> (checked: Result<(), String>)
    ensures
        if !metadata.regular_file || metadata.symlink {
            checked matches Err(error) && error@ == "library index is not a regular file"@
        } else if metadata.byte_len > MAX_INDEX_BYTES {
            checked matches Err(error) && error@ == "library index exceeds its size limit"@
        } else {
            checked is Ok
        },
{
    if !metadata.regular_file || metadata.symlink {
        return Err("library index is not a regular file".to_owned());
    }
    if metadata.byte_len > MAX_INDEX_BYTES {
        return Err("library index exceeds its size limit".to_owned());
    }
    Ok(())
}

/// Whether the documents of an index are distinct and can be believed.
pub open spec fn valid_documents(documents: Seq<IndexedDocument>) -> bool {
    &&& forall|i: int| 0 <= i < documents.len() ==> (#[trigger] documents[i]).valid()
    &&& forall|i: int, j: int|
        0 <= i < j < documents.len() ==> documents[i].document_id != documents[j].document_id
}

/// The index that was read from a file of `byte_len` bytes, from what the parser made of
/// them. An index of another version, or with an entry that cannot be believed or that
/// stands twice, is refused as a whole.
pub fn accept_index(byte_len: u64, parsed: Result<LibraryIndexFile, String>) -> (index: Result<
    LibraryIndexFile,
    String,
>)
    ensures
        if byte_len > MAX_INDEX_BYTES {
            index matches Err(error) && error@ == "library index exceeds its size limit"@
        } else {
            match parsed {
                Err(cause) => index matches Err(error) && error == cause,
                Ok(file) => if file.schema_version != INDEX_SCHEMA_VERSION {
                    index matches Err(error) && error@ == "unsupported library index schema "@
                        + decimal(file.schema_version as nat)
                } else if !valid_documents(file.documents@) {
                    index matches Err(error) && error@
                        == "library index contains an invalid entry"@
                } else {
                    index == parsed
                },
            }
        },
{
    if byte_len > MAX_INDEX_BYTES {
        return Err("library index exceeds its size limit".to_owned());
    }
    let file = match parsed {
        Ok(file) => file,
        Err(error) => {
            return Err(error);
        },
    };
    if file.schema_version != INDEX_SCHEMA_VERSION {
        let version = decimal_string(file.schema_version as u64);
        return Err(concat("unsupported library index schema ", version.as_str()));
    }
    let mut seen: HashSet<u128> = HashSet::new();
    for i in 0..file.documents.len()
        invariant
            forall|j: int| 0 <= j < i ==> (#[trigger] file.documents@[j]).valid(),
            forall|j: int, k: int|
                0 <= j < k < i ==> file.documents@[j].document_id != file.documents@[k].document_id,
            forall|id: u128| #[trigger]
                seen@.contains(id) <==> exists|j: int|
                    0 <= j < i && (#[trigger] file.documents@[j]).document_id == id,
            byte_len <= MAX_INDEX_BYTES,
            parsed == Ok::<LibraryIndexFile, String>(file),
            file.schema_version == INDEX_SCHEMA_VERSION,
    {
        let document = &file.documents[i];
        let future = match document.preview_revision {
            Some(preview) => preview > document.revision,
            None => false,
        };
        if is_blank(document.title.as_str()) || future {
            assert(!file.documents@[i as int].valid());
            return Err("library index contains an invalid entry".to_owned());
        }
        let fresh = seen.insert(document.document_id);
        if !fresh {
            return Err("library index contains an invalid entry".to_owned());
        }
        assert forall|id: u128| #[trigger] seen@.contains(id) implies exists|j: int|
            0 <= j < i + 1 && (#[trigger] file.documents@[j]).document_id == id by {
            if id == document.document_id {
                assert(file.documents@[i as int].document_id == id);
            }
        }
    }
    Ok(file)
}

/// The order of the index: what changed last comes first, and of what changed at the same
/// time the smaller identifier.
pub open spec fn before(left: IndexedDocument, right: IndexedDocument) -> bool {
    left.updated_at > right.updated_at || (left.updated_at == right.updated_at
        && left.document_id < right.document_id)
}

/// Whether `documents` is in the order of the index, with nothing twice.
pub open spec fn in_order(documents: Seq<IndexedDocument>) -> bool {
    forall|i: int, j: int|
        0 <= i < j < documents.len() ==> before(#[trigger] documents[i], #[trigger] documents[j])
}

/// Whether `documents` lists exactly what is indexed, in the order of the index.
pub open spec fn lists(
    documents: Seq<IndexedDocument>,
    indexed: Map<u128, IndexedDocument>,
) -> bool {
    &&& in_order(documents)
    &&& forall|i: int|
        0 <= i < documents.len() ==> indexed.contains_key((#[trigger] documents[i]).document_id)
            && indexed[documents[i].document_id] == documents[i]
    &&& forall|id: u128| #[trigger]
        indexed.contains_key(id) ==> documents.contains(indexed[id])
}

/// Whether every entry stands under its own identifier.
pub open spec fn keyed(indexed: Map<u128, IndexedDocument>) -> bool {
    forall|id: u128| #[trigger] indexed.contains_key(id) ==> indexed[id].document_id == id
}

/// Puts an entry at its place.
fn insert_in_order(documents: &mut Vec<IndexedDocument>, entry: IndexedDocument) -> (at: usize)
    requires
        in_order(old(documents)@),
        forall|i: int|
            0 <= i < old(documents)@.len() ==> (#[trigger] old(documents)@[i]).document_id
                != entry.document_id,
    ensures
        at <= old(documents)@.len(),
        final(documents)@ == old(documents)@.insert(at as int, entry),
        in_order(final(documents)@),
{
    let mut low: usize = 0;
    let mut high: usize = documents.len();
    while low < high
        invariant
            low <= high <= documents@.len(),
            documents@ == old(documents)@,
            in_order(documents@),
            forall|i: int|
                0 <= i < documents@.len() ==> (#[trigger] documents@[i]).document_id
                    != entry.document_id,
            forall|i: int| 0 <= i < low ==> before(#[trigger] documents@[i], entry),
            forall|i: int| high <= i < documents@.len() ==> before(entry, #[trigger] documents@[i]),
        decreases high - low,
    {
        let middle: usize = low + (high - low) / 2;
        let other = &documents[middle];
        if other.updated_at > entry.updated_at || (other.updated_at == entry.updated_at
            && other.document_id < entry.document_id) {
            assert forall|i: int| 0 <= i < middle + 1 implies before(
                #[trigger] documents@[i],
                entry,
            ) by {
                if i < middle {
                    assert(before(documents@[i], documents@[middle as int]));
                }
            }
            low = middle + 1;
        } else {
            assert(documents@[middle as int].document_id != entry.document_id);
            assert forall|i: int| middle <= i < documents@.len() implies before(
                entry,
                #[trigger] documents@[i],
            ) by {
                if middle < i {
                    assert(before(documents@[middle as int], documents@[i]));
                }
            }
            high = middle;
        }
    }
    documents.insert(low, entry);
    low
}

/// The identifiers of the index, each once, in no particular order.
fn indexed_ids(indexed: &HashMap<u128, IndexedDocument>) -> (ids: Vec<u128>)
    ensures
        ids@.no_duplicates(),
        forall|id: u128| #[trigger] ids@.contains(id) <==> indexed@.contains_key(id),
{
    let mut ids: Vec<u128> = Vec::new();
    for id in iter: indexed.keys()
        invariant
            iter.seq() == vstd::std_specs::iter::IteratorSpec::remaining(
                &vstd::std_specs::hash::spec_keys_iter(indexed),
            ),
            ids@.len() == iter.index(),
            forall|j: int| 0 <= j < ids@.len() ==> #[trigger] ids@[j] == *iter.seq()[j],
    {
        ids.push(*id);
    }
    proof {
        let keys = vstd::std_specs::iter::IteratorSpec::remaining(
            &vstd::std_specs::hash::spec_keys_iter(indexed),
        );
        assert(ids@ =~= keys.unref());
        assert(ids@.to_set() == indexed@.dom());
        assert forall|id: u128| #[trigger] ids@.contains(id) <==> indexed@.contains_key(id) by {
            assert(ids@.to_set().contains(id) <==> ids@.contains(id));
        }
    }
    ids
}

/// The entries of the index, in its order.
pub(crate) fn sorted_documents(indexed: &HashMap<u128, IndexedDocument>) -> (documents: Vec<IndexedDocument>)
    requires
        keyed(indexed@),
    ensures
        lists(documents@, indexed@),
{
    let ids = indexed_ids(indexed);
    let mut documents: Vec<IndexedDocument> = Vec::new();
    for n in 0..ids.len()
        invariant
            keyed(indexed@),
            ids@.no_duplicates(),
            forall|id: u128| #[trigger] ids@.contains(id) <==> indexed@.contains_key(id),
            in_order(documents@),
            forall|i: int|
                0 <= i < documents@.len() ==> indexed@.contains_key(
                    (#[trigger] documents@[i]).document_id,
                ) && indexed@[documents@[i].document_id] == documents@[i],
            forall|i: int, k: int|
                0 <= i < documents@.len() && n <= k < ids@.len() ==> (
                #[trigger] documents@[i]).document_id != #[trigger] ids@[k],
            forall|k: int| 0 <= k < n ==> documents@.contains(indexed@[#[trigger] ids@[k]]),
    {
        assert(ids@.contains(ids@[n as int]));
        if let Some(entry) = indexed.get(&ids[n]) {
            let ghost earlier = documents@;
            let at: usize = insert_in_order(&mut documents, entry.copy());
            proof {
                lemma_inserted(earlier, at as int, *entry);
                assert forall|i: int, k: int|
                    0 <= i < documents@.len() && n < k < ids@.len() implies (
                #[trigger] documents@[i]).document_id != #[trigger] ids@[k] by {
                    if i < at {
                        assert(documents@[i] == earlier[i]);
                    } else if i > at {
                        assert(documents@[i] == earlier[i - 1]);
                    }
                }
                assert forall|i: int| 0 <= i < documents@.len() implies indexed@.contains_key(
                    (#[trigger] documents@[i]).document_id,
                ) && indexed@[documents@[i].document_id] == documents@[i] by {
                    if i < at {
                        assert(documents@[i] == earlier[i]);
                    } else if i > at {
                        assert(documents@[i] == earlier[i - 1]);
                    }
                }
            }
        }
    }
    assert forall|id: u128| #[trigger] indexed@.contains_key(id) implies documents@.contains(
        indexed@[id],
    ) by {
        assert(ids@.contains(id));
        let k = choose|k: int| 0 <= k < ids@.len() && ids@[k] == id;
        assert(documents@.contains(indexed@[ids@[k]]));
    }
    documents
}

/// Inserting an element keeps every element and adds the new one.
proof fn lemma_inserted<A>(s: Seq<A>, at: int, added: A)
    requires
        0 <= at <= s.len(),
    ensures
        forall|x: A| #[trigger] s.contains(x) ==> s.insert(at, added).contains(x),
        s.insert(at, added).contains(added),
{
    let t = s.insert(at, added);
    assert forall|x: A| #[trigger] s.contains(x) implies t.contains(x) by {
        let i = choose|i: int| 0 <= i < s.len() && s[i] == x;
        if i < at {
            assert(t[i] == x);
        } else {
            assert(t[i + 1] == x);
        }
    }
    assert(t[at] == added);
}

} // verus!
