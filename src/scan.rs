//! The local library scan: which walked entries are audio files, and how each
//! one is described.
use vstd::prelude::*;
use crate::error::{detail, CommandError};
use crate::text::{extension_of, file_name_of, lower_of, lowercase, path_extension, path_file_name};

verus! {

/// One file found by a scan.
#[derive(Debug, Clone, PartialEq, Eq)]
pub struct AudioFile {
    pub path: String,
    pub file_name: String,
    pub display_name: String,
    pub artist: String,
    pub extension: String,
}

/// One item that walking the chosen folder produced.
#[derive(Debug, Clone, PartialEq, Eq)]
pub enum WalkItem {
    /// An entry of the tree; `is_file` tells a regular file from anything else.
    Entry { path: String, is_file: bool },
    /// An entry that could not be read, at its depth below the root (0 is the root).
    Failed { depth: usize, reason: String },
}

/// A file that passed the extension filter, before its tags are read.
#[derive(Debug, Clone, PartialEq, Eq)]
pub struct AudioCandidate {
    pub path: String,
    pub file_name: String,
    /// Lower-cased, one of the supported extensions.
    pub extension: String,
}

/// The title and artist read from one tag of an audio file.
#[derive(Debug, Clone, PartialEq, Eq)]
pub struct TagFields {
    pub title: Option<String>,
    pub artist: Option<String>,
}

/// The extensions (lower-cased) of the formats that the player lists.
pub open spec fn is_supported(ext: Seq<char>) -> bool {
    ext == "mp3"@ || ext == "wav"@ || ext == "ogg"@ || ext == "flac"@ || ext == "m4a"@
}

/// The lower-cased extension of a path, where it is a supported one.
pub open spec fn audio_extension_of(path: Seq<char>) -> Option<Seq<char>> {
    match extension_of(path) {
        Some(e) => if is_supported(lower_of(e)) {
            Some(lower_of(e))
        } else {
            None
        },
        None => None,
    }
}

/// The name shown for a file whose name cannot be read.
pub open spec fn unknown_file_name() -> Seq<char> {
    "unknown_file"@
}

/// The artist shown when no tag names one.
pub open spec fn unknown_artist() -> Seq<char> {
    "Unknown Artist"@
}

/// The file name part of a path, or the placeholder name.
pub open spec fn file_name_or_placeholder(path: Seq<char>) -> Seq<char> {
    match file_name_of(path) {
        Some(n) => n,
        None => unknown_file_name(),
    }
}

/// Whether a walked item is a regular file with a supported extension.
pub open spec fn is_audio_entry(item: WalkItem) -> bool {
    match item {
        WalkItem::Entry { path, is_file } => is_file && audio_extension_of(path@) is Some,
        WalkItem::Failed { .. } => false,
    }
}

/// The path of a walked entry (empty for a failure).
pub open spec fn item_path(item: WalkItem) -> Seq<char> {
    match item {
        WalkItem::Entry { path, .. } => path@,
        WalkItem::Failed { .. } => Seq::empty(),
    }
}

/// Why a walked item could not be read (empty for an entry).
pub open spec fn failure_reason(item: WalkItem) -> Seq<char> {
    match item {
        WalkItem::Failed { reason, .. } => reason@,
        WalkItem::Entry { .. } => Seq::empty(),
    }
}

/// Whether the walk could not read the root folder itself.
pub open spec fn is_root_failure(item: WalkItem) -> bool {
    match item {
        WalkItem::Failed { depth, .. } => depth == 0,
        WalkItem::Entry { .. } => false,
    }
}

/// The audio entries among walked items, in walk order.
pub open spec fn audio_entries(items: Seq<WalkItem>) -> Seq<WalkItem>
    decreases items.len(),
{
    if items.len() == 0 {
        Seq::empty()
    } else {
        let rest = audio_entries(items.drop_last());
        if is_audio_entry(items.last()) {
            rest.push(items.last())
        } else {
            rest
        }
    }
}

/// A candidate describes the walked entry whose path it holds.
pub open spec fn describes_entry(c: AudioCandidate, item: WalkItem) -> bool {
    &&& c.path@ == item_path(item)
    &&& c.file_name@ == file_name_or_placeholder(item_path(item))
    &&& audio_extension_of(item_path(item)) == Some(c.extension@)
}

/// The text of an optional tag field, where it is present and not empty.
pub open spec fn present_text(f: Option<String>) -> Option<Seq<char>> {
    match f {
        Some(t) => if t@.len() > 0 {
            Some(t@)
        } else {
            None
        },
        None => None,
    }
}

/// `r` describes the candidate file from the tag read from it.
pub open spec fn describes(r: AudioFile, candidate: AudioCandidate, tag: TagFields) -> bool {
    &&& r.path@ == candidate.path@
    &&& r.file_name@ == candidate.file_name@
    &&& r.extension@ == candidate.extension@
    &&& r.display_name@ == match present_text(tag.title) {
        Some(t) => t,
        None => candidate.file_name@,
    }
    &&& r.artist@ == match present_text(tag.artist) {
        Some(a) => a,
        None => unknown_artist(),
    }
}

/// The lower-cased extension of `path`, where it is one of the supported formats.
pub fn audio_extension(path: &str) -> (r: Option<String>)
    ensures
        match r {
            Some(e) => audio_extension_of(path@) == Some(e@),
            None => audio_extension_of(path@) is None,
        },
{
    match path_extension(path) {
        Some(e) => {
            let lower = lowercase(e.as_str());
            if is_supported_extension(lower.as_str()) {
                Some(lower)
            } else {
                None
            }
        },
        None => None,
    }
}

/// Whether `ext` is, as written, one of the supported extensions.
pub fn is_supported_extension(ext: &str) -> (r: bool)
    ensures
        r == is_supported(ext@),
{
    let e = ext.to_owned();
    let known = ["mp3", "wav", "ogg", "flac", "m4a"];
    let mut i: usize = 0;
    while i < 5
        invariant
            e@ == ext@,
            known@ == seq!["mp3", "wav", "ogg", "flac", "m4a"],
            forall|k: int| 0 <= k < i ==> ext@ != (#[trigger] known@[k])@,
        decreases 5 - i,
    {
        let candidate = known[i].to_owned();
        if e == candidate {
            return true;
        }
        i = i + 1;
    }
    assert(ext@ != known@[0]@ && ext@ != known@[1]@ && ext@ != known@[2]@
        && ext@ != known@[3]@ && ext@ != known@[4]@);
    false
}

/// Keeps the walked entries that are regular files with a supported
/// extension, in walk order, each with its file name and lower-cased
/// extension. Entries that could not be read are skipped; a failure to read
/// the root folder itself fails the whole scan, with no partial result.
pub fn select_audio_files(items: &Vec<WalkItem>) -> (r: Result<Vec<AudioCandidate>, CommandError>)
    ensures
        match r {
            Ok(cs) => {
                &&& forall|i: int| 0 <= i < items@.len() ==> !is_root_failure(#[trigger] items@[i])
                &&& cs@.len() == audio_entries(items@).len()
                &&& forall|k: int|
                    0 <= k < cs@.len() ==> describes_entry(#[trigger] cs@[k], audio_entries(items@)[k])
            },
            Err(e) => exists|i: int|
                0 <= i < items@.len() && #[trigger] is_root_failure(items@[i]) && e is Io
                    && detail(e) == failure_reason(items@[i]),
        },
{
    let mut out: Vec<AudioCandidate> = Vec::new();
    let mut i: usize = 0;
    while i < items.len()
        invariant
            i <= items@.len(),
            forall|j: int| 0 <= j < i ==> !is_root_failure(#[trigger] items@[j]),
            out@.len() == audio_entries(items@.take(i as int)).len(),
            forall|k: int|
                0 <= k < out@.len() ==> describes_entry(#[trigger] out@[k], audio_entries(items@.take(i as int))[k]),
        decreases items@.len() - i,
    {
        assert(items@.take(i + 1).drop_last() =~= items@.take(i as int));
        assert(items@.take(i + 1).last() == items@[i as int]);
        match &items[i] {
            WalkItem::Failed { depth, reason } => {
                if *depth == 0 {
                    assert(is_root_failure(items@[i as int]));
                    return Err(CommandError::Io(reason.clone()));
                }
            },
            WalkItem::Entry { path, is_file } => {
                if *is_file {
                    match audio_extension(path.as_str()) {
                        Some(extension) => {
                            let file_name = match path_file_name(path.as_str()) {
                                Some(n) => n,
                                None => "unknown_file".to_owned(),
                            };
                            out.push(AudioCandidate { path: path.clone(), file_name, extension });
                        },
                        None => {},
                    }
                }
            },
        }
        i = i + 1;
    }
    assert(items@.take(i as int) =~= items@);
    Ok(out)
}

/// The tag to read a file's title and artist from: the primary tag where the
/// file has one, else its first tag, else an empty tag.
pub fn choose_tag(primary: Option<TagFields>, first: Option<TagFields>) -> (r: TagFields)
    ensures
        r == match primary {
            Some(t) => t,
            None => match first {
                Some(t) => t,
                None => TagFields { title: None, artist: None },
            },
        },
{
    match primary {
        Some(t) => t,
        None => match first {
            Some(t) => t,
            None => TagFields { title: None, artist: None },
        },
    }
}

/// Describes a candidate file from its tag: the title where the tag has a
/// non-empty one, else the file name; the artist where the tag has a
/// non-empty one, else "Unknown Artist". A file whose tags could not be read
/// is described from an empty tag.
pub fn describe_audio_file(candidate: AudioCandidate, tag: TagFields) -> (r: AudioFile)
    ensures
        describes(r, candidate, tag),
{
    let display_name = match tag.title {
        Some(t) => if !t.as_str().is_empty() {
            t
        } else {
            candidate.file_name.clone()
        },
        None => candidate.file_name.clone(),
    };
    let artist = match tag.artist {
        Some(a) => if !a.as_str().is_empty() {
            a
        } else {
            "Unknown Artist".to_owned()
        },
        None => "Unknown Artist".to_owned(),
    };
    AudioFile {
        path: candidate.path,
        file_name: candidate.file_name,
        display_name,
        artist,
        extension: candidate.extension,
    }
}

/// A scan keeps exactly the regular files whose lower-cased extension is
/// supported: each kept entry is such a file, and each such file of the walk
/// is kept, in walk order. Directories and other files are left out.
pub proof fn lemma_scan_keeps_exactly_audio_files(items: Seq<WalkItem>)
    ensures
        audio_entries(items) == items.filter(|it: WalkItem| is_audio_entry(it)),
        forall|k: int|
            0 <= k < audio_entries(items).len() ==> {
                let it = #[trigger] audio_entries(items)[k];
                &&& it is Entry
                &&& it->is_file
                &&& is_supported(audio_extension_of(item_path(it))->0)
            },
        forall|i: int|
            0 <= i < items.len() && #[trigger] is_audio_entry(items[i]) ==> audio_entries(
                items,
            ).contains(items[i]),
    decreases items.len(),
{
    let keep = |it: WalkItem| is_audio_entry(it);
    reveal(Seq::filter);
    if items.len() > 0 {
        lemma_scan_keeps_exactly_audio_files(items.drop_last());
    }
    assert(audio_entries(items) == items.filter(keep));
    assert forall|k: int| 0 <= k < audio_entries(items).len() implies is_audio_entry(
        #[trigger] audio_entries(items)[k],
    ) by {
        items.lemma_filter_pred(keep, k);
    }
    assert forall|i: int| 0 <= i < items.len() && #[trigger] is_audio_entry(items[i]) implies audio_entries(
        items,
    ).contains(items[i]) by {
        items.lemma_filter_contains(keep, i);
    }
}

/// An audio file whose tags cannot be read, or that has none, is shown under
/// its file name, by "Unknown Artist".
pub proof fn lemma_untagged_file_defaults(candidate: AudioCandidate, r: AudioFile)
    requires
        describes(r, candidate, TagFields { title: None, artist: None }),
    ensures
        r.display_name@ == candidate.file_name@,
        r.artist@ == unknown_artist(),
        r.path@ == candidate.path@,
{
}

} // verus!
