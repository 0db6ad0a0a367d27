use tunedeck::error::CommandError;
use tunedeck::scan::{
    audio_extension, choose_tag, describe_audio_file, is_supported_extension, select_audio_files,
    AudioCandidate, TagFields, WalkItem,
};

fn entry(path: &str, is_file: bool) -> WalkItem {
    WalkItem::Entry { path: path.to_string(), is_file }
}

fn candidate(path: &str, name: &str, ext: &str) -> AudioCandidate {
    AudioCandidate { path: path.to_string(), file_name: name.to_string(), extension: ext.to_string() }
}

#[test]
fn supported_extensions_are_the_five_formats() {
    for ext in ["mp3", "wav", "ogg", "flac", "m4a"] {
        assert!(is_supported_extension(ext));
    }
    for ext in ["MP3", "txt", "aac", "", "mp"] {
        assert!(!is_supported_extension(ext));
    }
}

#[test]
fn audio_extension_is_lower_cased() {
    assert_eq!(audio_extension("/music/Song.MP3"), Some("mp3".to_string()));
    assert_eq!(audio_extension("/music/a.b.Flac"), Some("flac".to_string()));
    assert_eq!(audio_extension("/music/notes.txt"), None);
    assert_eq!(audio_extension("/music/README"), None);
    assert_eq!(audio_extension("/music/.mp3"), None);
}

#[test]
fn scan_keeps_only_supported_regular_files() {
    let items = vec![
        entry("/m", false),
        entry("/m/one.mp3", true),
        entry("/m/cover.jpg", true),
        entry("/m/album.flac", false),
        entry("/m/sub/Two.WAV", true),
        WalkItem::Failed { depth: 2, reason: "permission denied".to_string() },
        entry("/m/sub/three.ogg", true),
        entry("/m/sub/four.M4a", true),
        entry("/m/sub/five.aac", true),
    ];
    let found = select_audio_files(&items).unwrap();
    assert_eq!(
        found,
        vec![
            candidate("/m/one.mp3", "one.mp3", "mp3"),
            candidate("/m/sub/Two.WAV", "Two.WAV", "wav"),
            candidate("/m/sub/three.ogg", "three.ogg", "ogg"),
            candidate("/m/sub/four.M4a", "four.M4a", "m4a"),
        ]
    );
}

#[test]
fn scan_of_empty_folder_is_empty_success() {
    let items = vec![entry("/empty", false)];
    assert_eq!(select_audio_files(&items), Ok(vec![]));
}

#[test]
fn scan_of_missing_root_is_io_error() {
    let items = vec![WalkItem::Failed { depth: 0, reason: "No such file or directory".to_string() }];
    assert_eq!(
        select_audio_files(&items),
        Err(CommandError::Io("No such file or directory".to_string()))
    );
}

#[test]
fn root_failure_gives_no_partial_result() {
    let items = vec![
        entry("/m/one.mp3", true),
        WalkItem::Failed { depth: 0, reason: "gone".to_string() },
    ];
    assert_eq!(select_audio_files(&items), Err(CommandError::Io("gone".to_string())));
}

#[test]
fn untagged_file_uses_file_name_and_unknown_artist() {
    let tag = choose_tag(None, None);
    assert_eq!(tag, TagFields { title: None, artist: None });
    let f = describe_audio_file(candidate("/m/x.ogg", "x.ogg", "ogg"), tag);
    assert_eq!(f.display_name, "x.ogg");
    assert_eq!(f.artist, "Unknown Artist");
    assert_eq!(f.path, "/m/x.ogg");
    assert_eq!(f.file_name, "x.ogg");
    assert_eq!(f.extension, "ogg");
}

#[test]
fn tagged_file_uses_tag_fields() {
    let tag = TagFields { title: Some("Blue".to_string()), artist: Some("Band".to_string()) };
    let f = describe_audio_file(candidate("/m/x.mp3", "x.mp3", "mp3"), tag);
    assert_eq!(f.display_name, "Blue");
    assert_eq!(f.artist, "Band");
}

#[test]
fn empty_tag_fields_fall_back() {
    let tag = TagFields { title: Some(String::new()), artist: Some(String::new()) };
    let f = describe_audio_file(candidate("/m/x.mp3", "x.mp3", "mp3"), tag);
    assert_eq!(f.display_name, "x.mp3");
    assert_eq!(f.artist, "Unknown Artist");
}

#[test]
fn primary_tag_wins_over_first_tag() {
    let primary = TagFields { title: Some("P".to_string()), artist: None };
    let first = TagFields { title: Some("F".to_string()), artist: Some("A".to_string()) };
    assert_eq!(choose_tag(Some(primary.clone()), Some(first.clone())), primary);
    assert_eq!(choose_tag(None, Some(first.clone())), first);
}
