use haydeh::Audio;
use haydeh::ScanEntry;
use haydeh::ScanError;
use haydeh::Tag;
use haydeh::scan::distinct_artists;
use haydeh::scan::filter_by_artist;
use haydeh::scan::tracks_from_entries;

fn entry(path: &str, name: &str, is_file: bool) -> ScanEntry {
    ScanEntry { path: path.to_string(), file_name: name.to_string(), is_file }
}

fn track(title: &str, artist: &str, album: &str, path: &str) -> Audio {
    Audio {
        title: title.to_string(),
        artist: artist.to_string(),
        album: album.to_string(),
        path: path.to_string(),
    }
}

#[test]
fn is_mp3_accepts_the_exact_suffix() {
    assert!(Audio::is_mp3(&entry("/m/song.mp3", "song.mp3", true)));
    assert!(Audio::is_mp3(&entry("/m/mp3", "mp3", true)));
    assert!(Audio::is_mp3(&entry("/m/xmp3", "xmp3", true)));
}

#[test]
fn is_mp3_rejects_other_names() {
    assert!(!Audio::is_mp3(&entry("/m/song.ogg", "song.ogg", true)));
    assert!(!Audio::is_mp3(&entry("/m/song.MP3", "song.MP3", true)));
    assert!(!Audio::is_mp3(&entry("/m/mp", "mp", true)));
    assert!(!Audio::is_mp3(&entry("/m/song.mp3x", "song.mp3x", true)));
}

#[test]
fn scan_keeps_exactly_the_matching_files() {
    let entries = vec![
        entry("/m", "m", false),
        entry("/m/a.mp3", "a.mp3", true),
        entry("/m/b.mp3", "b.mp3", false),
        entry("/m/c.txt", "c.txt", true),
        entry("/m/d.mp3", "d.mp3", true),
    ];
    let tracks = tracks_from_entries(&entries);
    assert_eq!(tracks.len(), 2);
    assert_eq!(tracks[0].path, "/m/a.mp3");
    assert_eq!(tracks[1].path, "/m/d.mp3");
}

#[test]
fn unreadable_entries_get_empty_tag_fields() {
    let entries = vec![entry("/no/such/file/anywhere.mp3", "anywhere.mp3", true)];
    let tracks = tracks_from_entries(&entries);
    assert_eq!(tracks.len(), 1);
    assert_eq!(tracks[0].title, "");
    assert_eq!(tracks[0].artist, "");
    assert_eq!(tracks[0].album, "");
    assert_eq!(tracks[0].path, "/no/such/file/anywhere.mp3");
}

#[test]
fn from_tag_copies_the_tag_exactly() {
    let t = Audio::from_tag(
        "/m/a.mp3".to_string(),
        Some(Tag {
            title: "Title".to_string(),
            artist: "Artist".to_string(),
            album: "Album".to_string(),
        }),
    );
    assert_eq!(t.title, "Title");
    assert_eq!(t.artist, "Artist");
    assert_eq!(t.album, "Album");
    assert_eq!(t.path, "/m/a.mp3");
}

#[test]
fn from_tag_without_tag_is_all_empty() {
    let t = Audio::from_tag("/m/a.mp3".to_string(), None);
    assert_eq!(t.title, "");
    assert_eq!(t.artist, "");
    assert_eq!(t.album, "");
    assert_eq!(t.path, "/m/a.mp3");
}

#[test]
fn filter_by_artist_keeps_only_exact_matches() {
    let tracks = vec![
        track("t1", "A", "x", "p1"),
        track("t2", "B", "x", "p2"),
        track("t3", "A", "y", "p3"),
        track("t4", "a", "y", "p4"),
        track("t5", "A ", "y", "p5"),
    ];
    let songs = filter_by_artist(&tracks, &"A".to_string());
    assert_eq!(songs.len(), 2);
    assert_eq!(songs[0].path, "p1");
    assert_eq!(songs[1].path, "p3");
}

#[test]
fn distinct_artists_drops_duplicates() {
    let tracks = vec![
        track("t1", "A", "x", "p1"),
        track("t2", "A", "x", "p2"),
        track("t3", "B", "y", "p3"),
        track("t4", "", "y", "p4"),
        track("t5", "B", "y", "p5"),
    ];
    let names = distinct_artists(&tracks);
    assert_eq!(names.len(), 3);
    assert!(names.contains(&"A".to_string()));
    assert!(names.contains(&"B".to_string()));
    assert!(names.contains(&"".to_string()));
}

#[test]
fn an_untraversable_root_is_an_io_error() {
    let root = "/no/such/directory/anywhere/at/all".to_string();
    assert!(matches!(Audio::get_audios(&root), Err(ScanError::Io)));
    assert!(matches!(
        Audio::get_artist_songs("A".to_string(), &root),
        Err(ScanError::Io)
    ));
    assert!(matches!(haydeh::App::get_artists(&root), Err(ScanError::Io)));
    assert!(matches!(haydeh::AppData::new(root), Err(ScanError::Io)));
}
