//! The local state scanner: what a directory listing says about the last
//! sync of an image.

use crate::text::{contains, ends_with, has_suffix, is_infix};
use crate::timestamp::Timestamp;
use vstd::prelude::*;

verus! {

/// The ending, dot included, that marks a file as a build artifact.
pub const ARTIFACT_SUFFIX: &'static str = ".sif";

/// One entry of a directory listing, as far as it could be read.
#[derive(Debug, PartialEq, Eq)]
pub struct DirEntry {
    /// The entry's file name; `None` where the entry or its name is unreadable.
    pub file_name: Option<String>,
    /// Whether the entry is a regular file.
    pub is_file: bool,
    /// When the entry was last modified; `None` where that is unknown.
    pub modified: Option<Timestamp>,
}

/// What the scanner reads of a directory entry.
pub ghost struct EntryModel {
    pub file_name: Option<Seq<char>>,
    pub is_file: bool,
    pub modified: Option<Timestamp>,
}

impl View for DirEntry {
    type V = EntryModel;

    open spec fn view(&self) -> EntryModel {
        EntryModel {
            file_name: match self.file_name {
                Some(name) => Some(name@),
                None => None,
            },
            is_file: self.is_file,
            modified: self.modified,
        }
    }
}

impl DeepView for DirEntry {
    type V = EntryModel;

    open spec fn deep_view(&self) -> EntryModel {
        self@
    }
}

/// What the scanner makes of one entry: an artifact of the image with its
/// modification time, or the first reason for which it is passed over.
#[derive(Clone, Copy, Debug, PartialEq, Eq, Structural)]
pub enum Scanned {
    Artifact(Timestamp),
    Unreadable,
    NotAFile,
    OtherExtension,
    OtherImage,
    NoTimestamp,
}

/// `name` has the artifact extension: it ends with the artifact suffix and
/// holds at least one character before it.
pub open spec fn has_artifact_extension(name: Seq<char>) -> bool {
    name.len() > ARTIFACT_SUFFIX@.len() && has_suffix(name, ARTIFACT_SUFFIX@)
}

/// An entry counts for `image` when it is a readable regular file with the
/// artifact extension, a name that holds `image`, and a modification time.
pub open spec fn classify_model(entry: EntryModel, image: Seq<char>) -> Scanned {
    match entry.file_name {
        None => Scanned::Unreadable,
        Some(name) => if !entry.is_file {
            Scanned::NotAFile
        } else if !has_artifact_extension(name) {
            Scanned::OtherExtension
        } else if !is_infix(image, name) {
            Scanned::OtherImage
        } else {
            match entry.modified {
                Some(time) => Scanned::Artifact(time),
                None => Scanned::NoTimestamp,
            }
        },
    }
}

/// `mark`, moved up to the time of an artifact that is later.
pub open spec fn raise(mark: Timestamp, scanned: Scanned) -> Timestamp {
    match scanned {
        Scanned::Artifact(time) => mark.spec_latest(time),
        _ => mark,
    }
}

/// The latest of `start` and the times of the artifacts of `image` among
/// `entries`.
pub open spec fn mark_from(
    start: Timestamp,
    entries: Seq<EntryModel>,
    image: Seq<char>,
) -> Timestamp
    decreases entries.len(),
{
    if entries.len() == 0 {
        start
    } else {
        raise(
            mark_from(start, entries.drop_last(), image),
            classify_model(entries.last(), image),
        )
    }
}

/// The high-water mark of `image`: the latest modification time among its
/// artifacts, and the epoch where there is none later.
pub open spec fn high_water_mark(entries: Seq<EntryModel>, image: Seq<char>) -> Timestamp {
    mark_from(Timestamp::spec_epoch(), entries, image)
}

/// The mark is no earlier than its start and than any artifact's time, and
/// it is the start or the time of one of the artifacts.
pub proof fn lemma_mark_is_latest(start: Timestamp, entries: Seq<EntryModel>, image: Seq<char>)
    ensures
        !start.is_after(mark_from(start, entries, image)),
        forall|i: int|
            0 <= i < entries.len() ==> (#[trigger] classify_model(entries[i], image)
                matches Scanned::Artifact(time) ==> !time.is_after(
                mark_from(start, entries, image),
            )),
        mark_from(start, entries, image) == start || exists|i: int|
            0 <= i < entries.len() && #[trigger] classify_model(entries[i], image)
                == Scanned::Artifact(mark_from(start, entries, image)),
    decreases entries.len(),
{
    if entries.len() > 0 {
        let front = entries.drop_last();
        lemma_mark_is_latest(start, front, image);
        let before = mark_from(start, front, image);
        let mark = mark_from(start, entries, image);
        assert forall|i: int| 0 <= i < entries.len() implies (#[trigger] classify_model(
            entries[i],
            image,
        ) matches Scanned::Artifact(time) ==> !time.is_after(mark)) by {
            if i < front.len() {
                assert(entries[i] == front[i]);
            }
        }
        if mark != start {
            if mark == before {
                let i = choose|i: int|
                    0 <= i < front.len() && #[trigger] classify_model(front[i], image)
                        == Scanned::Artifact(before);
                assert(entries[i] == front[i]);
            } else {
                assert(classify_model(entries[entries.len() - 1], image) == Scanned::Artifact(
                    mark,
                ));
            }
        }
    }
}

/// Scanning a listing in two parts gives the mark of the whole.
pub proof fn lemma_mark_of_parts(
    start: Timestamp,
    front: Seq<EntryModel>,
    back: Seq<EntryModel>,
    image: Seq<char>,
)
    ensures
        mark_from(start, front + back, image) == mark_from(
            mark_from(start, front, image),
            back,
            image,
        ),
    decreases back.len(),
{
    if back.len() == 0 {
        assert(front + back =~= front);
    } else {
        assert((front + back).drop_last() =~= front + back.drop_last());
        lemma_mark_of_parts(start, front, back.drop_last(), image);
    }
}

/// An entry that is no artifact of `image` leaves the mark where it is,
/// wherever in the listing it stands.
pub proof fn lemma_mark_ignores_others(
    front: Seq<EntryModel>,
    entry: EntryModel,
    back: Seq<EntryModel>,
    image: Seq<char>,
)
    requires
        !(classify_model(entry, image) is Artifact),
    ensures
        high_water_mark(front + seq![entry] + back, image) == high_water_mark(front + back, image),
{
    let start = Timestamp::spec_epoch();
    lemma_mark_of_parts(start, front + seq![entry], back, image);
    lemma_mark_of_parts(start, front, back, image);
    assert((front + seq![entry]).drop_last() =~= front);
}

/// Whether `name` has the artifact extension.
pub fn is_artifact_name(name: &str) -> (found: bool)
    ensures
        found == has_artifact_extension(name@),
{
    name.unicode_len() > ARTIFACT_SUFFIX.unicode_len() && ends_with(name, ARTIFACT_SUFFIX)
}

/// Sorts one entry: an artifact of `image`, or why it is passed over.
pub fn classify(entry: &DirEntry, image: &str) -> (scanned: Scanned)
    ensures
        scanned == classify_model(entry@, image@),
{
    match &entry.file_name {
        None => Scanned::Unreadable,
        Some(name) => {
            if !entry.is_file {
                Scanned::NotAFile
            } else if !is_artifact_name(name.as_str()) {
                Scanned::OtherExtension
            } else if !contains(name.as_str(), image) {
                Scanned::OtherImage
            } else {
                match entry.modified {
                    Some(time) => Scanned::Artifact(time),
                    None => Scanned::NoTimestamp,
                }
            }
        },
    }
}

/// The high-water mark of `image` in a listing of its target directory.
/// Entries that are no artifacts of the image are passed over; an empty
/// listing gives the epoch.
pub fn latest_sync_timestamp(entries: &Vec<DirEntry>, image: &str) -> (mark: Timestamp)
    ensures
        mark == high_water_mark(entries.deep_view(), image@),
{
    let mut mark = Timestamp::epoch();
    let mut i: usize = 0;
    while i < entries.len()
        invariant
            i <= entries.len(),
            mark == high_water_mark(entries.deep_view().take(i as int), image@),
        decreases entries.len() - i,
    {
        let scanned = classify(&entries[i], image);
        proof {
            let seen = entries.deep_view().take(i + 1);
            assert(seen.drop_last() =~= entries.deep_view().take(i as int));
            assert(seen.last() == entries[i as int]@);
        }
        if let Scanned::Artifact(time) = scanned {
            mark = mark.latest(time);
        }
        i = i + 1;
    }
    assert(entries.deep_view().take(i as int) =~= entries.deep_view());
    mark
}

} // verus!
