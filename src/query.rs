//! Turning a free-form query into the resolver's command line.
use vstd::prelude::*;
use crate::text::{contains_text, has_piece, joined};

verus! {

/// How a query is resolved.
#[derive(Debug, Clone, Copy, PartialEq, Eq)]
pub enum QueryKind {
    /// A playlist link: every item of the playlist is resolved.
    Playlist,
    /// A link to one video: only that item is resolved.
    SingleItem,
    /// Free text: the best search match is resolved.
    Search,
}

/// Links that name a whole playlist.
pub open spec fn is_playlist_link(q: Seq<char>) -> bool {
    has_piece(q, "youtube.com/playlist?list="@) || (has_piece(q, "music.youtube.com/watch?"@)
        && has_piece(q, "list="@))
}

/// Links that name a single video.
pub open spec fn is_single_item_link(q: Seq<char>) -> bool {
    has_piece(q, "youtube.com/watch?v="@) || has_piece(q, "youtu.be/"@)
}

pub open spec fn kind_of(q: Seq<char>) -> QueryKind {
    if is_playlist_link(q) {
        QueryKind::Playlist
    } else if is_single_item_link(q) {
        QueryKind::SingleItem
    } else {
        QueryKind::Search
    }
}

/// The format selection: the best m4a audio, else the best audio, else the best.
pub open spec fn format_choice() -> Seq<char> {
    "bestaudio[ext=m4a]/bestaudio/best"@
}

/// The resolver's arguments for a query of each kind.
pub open spec fn resolver_args_of(q: Seq<char>) -> Seq<Seq<char>> {
    match kind_of(q) {
        QueryKind::Playlist => seq![
            "--dump-json"@,
            "--yes-playlist"@,
            "--ignore-errors"@,
            "-f"@,
            format_choice(),
            q,
        ],
        QueryKind::SingleItem => seq![
            "--dump-json"@,
            "--no-playlist"@,
            "--ignore-errors"@,
            "-f"@,
            format_choice(),
            q,
        ],
        QueryKind::Search => seq![
            "ytsearch1:"@ + q,
            "--dump-json"@,
            "--ignore-errors"@,
            "-f"@,
            format_choice(),
        ],
    }
}

/// Classifies a query: a playlist link first, then a single-video link,
/// else a search.
pub fn classify_query(query: &str) -> (r: QueryKind)
    ensures
        r == kind_of(query@),
{
    let playlist = contains_text(query, "youtube.com/playlist?list=") || (contains_text(
        query,
        "music.youtube.com/watch?",
    ) && contains_text(query, "list="));
    if playlist {
        QueryKind::Playlist
    } else if contains_text(query, "youtube.com/watch?v=") || contains_text(query, "youtu.be/") {
        QueryKind::SingleItem
    } else {
        QueryKind::Search
    }
}

/// The command-line arguments that resolve `query`: JSON Lines output,
/// tolerance of failing items, the audio format choice, and the query itself
/// (for a search, as a directive that takes the single best match).
pub fn resolver_args(query: &str) -> (r: Vec<String>)
    ensures
        r@.len() == resolver_args_of(query@).len(),
        forall|i: int| 0 <= i < r@.len() ==> (#[trigger] r@[i])@ == resolver_args_of(query@)[i],
{
    let kind = classify_query(query);
    let mut args: Vec<String> = Vec::new();
    match kind {
        QueryKind::Search => {
            args.push(joined("ytsearch1:", query));
            args.push("--dump-json".to_owned());
        },
        QueryKind::Playlist => {
            args.push("--dump-json".to_owned());
            args.push("--yes-playlist".to_owned());
        },
        QueryKind::SingleItem => {
            args.push("--dump-json".to_owned());
            args.push("--no-playlist".to_owned());
        },
    }
    args.push("--ignore-errors".to_owned());
    args.push("-f".to_owned());
    args.push("bestaudio[ext=m4a]/bestaudio/best".to_owned());
    match kind {
        QueryKind::Search => {},
        _ => args.push(query.to_owned()),
    }
    args
}

/// Where a copy of the resolver shipped with the player is looked for.
pub fn bundled_resolver_path(windows: bool) -> (r: String)
    ensures
        r@ == if windows {
            "bin/yt-dlp.exe"@
        } else {
            "bin/yt-dlp"@
        },
{
    if windows {
        "bin/yt-dlp.exe".to_owned()
    } else {
        "bin/yt-dlp".to_owned()
    }
}

/// The resolver program to run: the bundled copy where it is present, else
/// the one found on the system search path.
pub fn resolver_program(bundled_present: bool, windows: bool) -> (r: String)
    ensures
        r@ == if bundled_present {
            if windows {
                "bin/yt-dlp.exe"@
            } else {
                "bin/yt-dlp"@
            }
        } else if windows {
            "yt-dlp.exe"@
        } else {
            "yt-dlp"@
        },
{
    if bundled_present {
        bundled_resolver_path(windows)
    } else if windows {
        "yt-dlp.exe".to_owned()
    } else {
        "yt-dlp".to_owned()
    }
}

} // verus!
