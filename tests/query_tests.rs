use tunedeck::query::{bundled_resolver_path, classify_query, resolver_args, resolver_program, QueryKind};

const FORMAT: &str = "bestaudio[ext=m4a]/bestaudio/best";

#[test]
fn playlist_link_is_playlist_mode() {
    let q = "https://www.youtube.com/playlist?list=XYZ";
    assert_eq!(classify_query(q), QueryKind::Playlist);
    assert_eq!(
        resolver_args(q),
        vec!["--dump-json", "--yes-playlist", "--ignore-errors", "-f", FORMAT, q]
    );
}

#[test]
fn short_link_is_single_item_mode() {
    let q = "https://youtu.be/abc123";
    assert_eq!(classify_query(q), QueryKind::SingleItem);
    assert_eq!(
        resolver_args(q),
        vec!["--dump-json", "--no-playlist", "--ignore-errors", "-f", FORMAT, q]
    );
}

#[test]
fn free_text_is_single_result_search() {
    let q = "some song name";
    assert_eq!(classify_query(q), QueryKind::Search);
    assert_eq!(
        resolver_args(q),
        vec!["ytsearch1:some song name", "--dump-json", "--ignore-errors", "-f", FORMAT]
    );
}

#[test]
fn watch_links_are_single_items() {
    assert_eq!(classify_query("https://www.youtube.com/watch?v=abc&list=L1"), QueryKind::SingleItem);
    assert_eq!(classify_query("https://music.youtube.com/watch?v=abc"), QueryKind::SingleItem);
}

#[test]
fn music_links_with_list_are_playlists() {
    assert_eq!(classify_query("https://music.youtube.com/playlist?list=PL1"), QueryKind::Playlist);
    assert_eq!(classify_query("https://music.youtube.com/watch?v=abc&list=RD1"), QueryKind::Playlist);
}

#[test]
fn empty_query_is_a_search() {
    assert_eq!(classify_query(""), QueryKind::Search);
    assert_eq!(resolver_args("")[0], "ytsearch1:");
}

#[test]
fn resolver_program_prefers_bundled_copy() {
    assert_eq!(bundled_resolver_path(false), "bin/yt-dlp");
    assert_eq!(bundled_resolver_path(true), "bin/yt-dlp.exe");
    assert_eq!(resolver_program(true, false), "bin/yt-dlp");
    assert_eq!(resolver_program(true, true), "bin/yt-dlp.exe");
    assert_eq!(resolver_program(false, false), "yt-dlp");
    assert_eq!(resolver_program(false, true), "yt-dlp.exe");
}
