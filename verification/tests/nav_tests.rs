use haydeh::App;
use haydeh::AppData;
use haydeh::Audio;
use haydeh::Cursor;
use haydeh::TabState;
use haydeh::scan::filter_by_artist;

fn track(title: &str, artist: &str, album: &str, path: &str) -> Audio {
    Audio {
        title: title.to_string(),
        artist: artist.to_string(),
        album: album.to_string(),
        path: path.to_string(),
    }
}

fn app_with(tracks: Vec<Audio>) -> App {
    App::from_data(AppData::from_tracks("/music".to_string(), tracks))
}

#[test]
fn tabs_cycle_in_both_directions() {
    let titles = vec![
        "Browse".to_string(),
        "Tracks".to_string(),
        "Play queue".to_string(),
        "Settings".to_string(),
    ];
    let mut tabs = TabState::new(titles);
    assert_eq!(tabs.index, 0);
    tabs.next();
    tabs.next();
    tabs.next();
    assert_eq!(tabs.index, 3);
    tabs.next();
    assert_eq!(tabs.index, 0);
    tabs.prev();
    assert_eq!(tabs.index, 3);
    tabs.prev();
    assert_eq!(tabs.index, 2);
}

#[test]
fn cursor_returns_after_a_full_cycle() {
    let mut c = Cursor::new();
    c.select(Some(1));
    for _ in 0..3 {
        c.move_down(3);
    }
    assert_eq!(c.selected(), Some(1));
    for _ in 0..3 {
        c.move_up(3);
    }
    assert_eq!(c.selected(), Some(1));
}

#[test]
fn cursor_wraps_at_both_ends() {
    let mut c = Cursor::new();
    assert_eq!(c.move_down(3), Some(0));
    assert_eq!(c.move_up(3), Some(2));
    assert_eq!(c.move_up(3), Some(1));
    c.select(Some(2));
    assert_eq!(c.move_down(3), Some(0));
}

#[test]
fn empty_library_has_no_selection_and_never_panics() {
    let mut app = app_with(Vec::new());
    assert_eq!(app.data.audios.len(), 0);
    assert_eq!(app.data.artists.len(), 0);
    assert_eq!(app.data.artist_songs.len(), 0);
    assert_eq!(app.states.artists_state.selected(), None);
    assert_eq!(app.states.artists_song_state.selected(), None);
    assert_eq!(app.states.track_state.selected(), None);

    app.on_down();
    app.on_up();
    app.artists_down();
    app.artists_up();
    app.on_right();
    app.on_down();
    app.on_up();
    app.next();
    app.prev();
    app.on_key('j');
    app.on_key('k');

    assert_eq!(app.states.artists_state.selected(), None);
    assert_eq!(app.states.artists_song_state.selected(), None);
    assert_eq!(app.states.track_state.selected(), None);
    assert!(app.on_play().is_none());

    assert!(app.refresh_artist_songs().is_ok());
    assert_eq!(app.data.artist_songs.len(), 0);
}

#[test]
fn tracks_tab_move_down_wraps_and_stages_the_first_track() {
    let mut app = app_with(vec![
        track("t0", "A", "x", "p0"),
        track("t1", "A", "x", "p1"),
        track("t2", "B", "y", "p2"),
    ]);
    app.on_right();
    assert_eq!(app.tabs.index, 1);
    app.on_down();
    app.on_down();
    app.on_down();
    assert_eq!(app.states.track_state.selected(), Some(2));
    app.on_down();
    assert_eq!(app.states.track_state.selected(), Some(0));
    let staged = app.on_play().unwrap();
    assert_eq!(staged.path, "p0");
    assert_eq!(staged.title, "t0");
}

#[test]
fn song_moves_stage_the_track_under_the_cursor() {
    let tracks = vec![
        track("s0", "A", "x", "p0"),
        track("s1", "A", "x", "p1"),
        track("s2", "B", "y", "p2"),
    ];
    let songs = filter_by_artist(&tracks, &"A".to_string());
    let mut app = app_with(tracks);
    app.install_artist_songs(songs);
    assert_eq!(app.data.artist_songs.len(), 2);

    app.on_down();
    assert_eq!(app.states.artists_song_state.selected(), Some(0));
    assert_eq!(app.on_play().unwrap().path, "p0");
    app.on_up();
    assert_eq!(app.states.artists_song_state.selected(), Some(1));
    assert_eq!(app.on_play().unwrap().path, "p1");
}

#[test]
fn per_artist_refresh_replaces_only_the_song_list() {
    let tracks = vec![
        track("s0", "A", "x", "pa0"),
        track("s1", "A", "x", "pa1"),
        track("s2", "B", "y", "pb0"),
    ];
    let mut app = app_with(tracks.clone());
    assert_eq!(app.data.artists, vec!["A".to_string(), "B".to_string()]);

    app.artists_down();
    assert_eq!(app.artist_index, 0);
    let songs = filter_by_artist(&app.data.audios, &app.data.artists[app.artist_index]);
    app.install_artist_songs(songs);
    assert_eq!(app.data.artist_songs.len(), 2);
    assert!(app.data.artist_songs.iter().all(|s| s.artist == "A"));
    assert_eq!(app.data.audios.len(), 3);
    assert_eq!(app.data.artists.len(), 2);

    app.artists_down();
    assert_eq!(app.artist_index, 1);
    let songs = filter_by_artist(&app.data.audios, &app.data.artists[app.artist_index]);
    app.install_artist_songs(songs);
    assert_eq!(app.data.artist_songs.len(), 1);
    assert_eq!(app.data.artist_songs[0].path, "pb0");
    assert_eq!(app.data.audios.len(), 3);
    assert_eq!(app.data.artists.len(), 2);
}

#[test]
fn installing_a_shorter_song_list_drops_a_stale_cursor() {
    let tracks = vec![
        track("s0", "A", "x", "p0"),
        track("s1", "A", "x", "p1"),
        track("s2", "B", "y", "p2"),
    ];
    let a_songs = filter_by_artist(&tracks, &"A".to_string());
    let b_songs = filter_by_artist(&tracks, &"B".to_string());
    let mut app = app_with(tracks);
    app.install_artist_songs(a_songs);
    app.on_down();
    app.on_down();
    assert_eq!(app.states.artists_song_state.selected(), Some(1));
    app.install_artist_songs(b_songs);
    assert_eq!(app.states.artists_song_state.selected(), None);
}

#[test]
fn tab_switches_touch_no_cursor_and_no_staged_track() {
    let mut app = app_with(vec![
        track("t0", "A", "x", "p0"),
        track("t1", "B", "x", "p1"),
    ]);
    app.artists_down();
    app.on_right();
    app.on_down();
    let staged_before = app.on_play().unwrap().path.clone();
    let artist_before = app.states.artists_state.selected();
    let song_before = app.states.artists_song_state.selected();
    let track_before = app.states.track_state.selected();

    app.on_right();
    app.on_left();
    app.on_key('l');
    app.on_key('h');

    assert_eq!(app.states.artists_state.selected(), artist_before);
    assert_eq!(app.states.artists_song_state.selected(), song_before);
    assert_eq!(app.states.track_state.selected(), track_before);
    assert_eq!(app.on_play().unwrap().path, staged_before);
}

#[test]
fn artist_moves_work_on_every_tab_and_stage_nothing() {
    let mut app = app_with(vec![
        track("t0", "A", "x", "p0"),
        track("t1", "B", "x", "p1"),
    ]);
    app.on_right();
    app.on_right();
    app.artists_down();
    assert_eq!(app.states.artists_state.selected(), Some(0));
    app.artists_down();
    assert_eq!(app.states.artists_state.selected(), Some(1));
    app.artists_down();
    assert_eq!(app.states.artists_state.selected(), Some(0));
    app.artists_up();
    assert_eq!(app.states.artists_state.selected(), Some(1));
    assert!(app.on_play().is_none());
}

#[test]
fn quit_key_sets_the_flag_and_unknown_keys_do_nothing() {
    let mut app = app_with(vec![track("t0", "A", "x", "p0")]);
    app.on_key('z');
    assert!(!app.states.should_quit);
    assert_eq!(app.states.track_state.selected(), None);
    app.on_key('q');
    assert!(app.states.should_quit);
}
