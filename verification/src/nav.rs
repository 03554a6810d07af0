//! The navigation state machine: the library data, the per-view selection
//! cursors, the active tab and the staged track, driven by discrete key
//! events and by the periodic per-artist refresh.
//!
//! Every transition is pinned by a spec function over the whole state, so a
//! contract of the form `*final(self) == spec_...(*old(self))` says exactly
//! which fields move and which stay.

use vstd::prelude::*;

use crate::cursor::Cursor;
use crate::cursor::cursor_in;
use crate::cursor::down_from;
use crate::cursor::up_from;
use crate::scan::ScanError;
use crate::scan::appears_as_artist;
use crate::scan::distinct_artists;
use crate::scan::has_name;
use crate::tabs::TabState;
use crate::track::Audio;

verus! {

/// The per-view selection cursors, the quit flag and the staged track.
pub struct AppStates {
    /// Selection over the artist list; never gated by the active tab.
    pub artists_state: Cursor,
    /// Selection over the selected artist's song list (browse tab).
    pub artists_song_state: Cursor,
    /// Selection over the flat track table (tracks tab).
    pub track_state: Cursor,
    /// Set by the quit key; the control loop stops on it.
    pub should_quit: bool,
    /// The track that activation hands to the playback device.
    pub to_play: Option<Audio>,
}

impl AppStates {
    /// Fresh states: nothing selected, nothing staged, not quitting.
    pub fn new() -> (r: AppStates)
        ensures
            r.artists_state.pos is None,
            r.artists_song_state.pos is None,
            r.track_state.pos is None,
            !r.should_quit,
            r.to_play is None,
    {
        AppStates {
            artists_state: Cursor::new(),
            artists_song_state: Cursor::new(),
            track_state: Cursor::new(),
            should_quit: false,
            to_play: None,
        }
    }
}

/// The library data: the root, the flat track collection and the artist set
/// of the startup scan, and the periodically refreshed per-artist song list.
pub struct AppData {
    pub audio_path: String,
    pub audios: Vec<Audio>,
    pub artist_songs: Vec<Audio>,
    pub artists: Vec<String>,
}

impl AppData {
    /// The scan invariants: every artist name is the artist of some track of
    /// the same scan, the names are distinct, and the song list is all one
    /// artist's.
    pub open spec fn wf(&self) -> bool {
        &&& forall|i: int|
            0 <= i < self.artists@.len() ==> appears_as_artist(
                self.audios@,
                self.audios@.len() as int,
                (#[trigger] self.artists@[i])@,
            )
        &&& forall|i1: int, i2: int|
            0 <= i1 < i2 < self.artists@.len() ==> self.artists@[i1]@ != self.artists@[i2]@
        &&& forall|k1: int, k2: int|
            0 <= k1 < self.artist_songs@.len() && 0 <= k2 < self.artist_songs@.len() ==> (
            #[trigger] self.artist_songs@[k1]).artist@ == (#[trigger] self.artist_songs@[k2]).artist@
    }

    /// Assembles the library data from one already-scanned track list: the
    /// artist set is derived from exactly those tracks, and the song list
    /// starts empty.
    pub fn from_tracks(audio_path: String, audios: Vec<Audio>) -> (r: AppData)
        ensures
            r.wf(),
            r.audio_path == audio_path,
            r.audios == audios,
            r.artist_songs@.len() == 0,
            forall|k: int|
                0 <= k < audios@.len() ==> has_name(r.artists@, (#[trigger] audios@[k]).artist@),
    {
        let artists = distinct_artists(&audios);
        AppData { audio_path, audios, artist_songs: Vec::new(), artists }
    }

    /// Scans the tree under `audio_path` once and assembles the library data
    /// from that one scan. Fails when the tree cannot be traversed.
    pub fn new(audio_path: String) -> (r: Result<AppData, ScanError>)
        ensures
            r matches Ok(d) ==> d.wf() && d.audio_path == audio_path && d.artist_songs@.len()
                == 0,
            r matches Err(e) ==> e == ScanError::Io,
    {
        let audios = match Audio::get_audios(&audio_path) {
            Ok(a) => a,
            Err(e) => return Err(e),
        };
        Ok(Self::from_tracks(audio_path, audios))
    }
}

/// One downward cursor step over a list of `len` rows: from no selection the
/// first row; otherwise circular.
pub open spec fn step_down(cur: Option<usize>, len: int) -> int {
    match cur {
        Some(i) => down_from(i as int, len),
        None => 0,
    }
}

/// One upward cursor step over a list of `len` rows: from no selection the
/// first row; otherwise circular.
pub open spec fn step_up(cur: Option<usize>, len: int) -> int {
    match cur {
        Some(i) => up_from(i as int, len),
        None => 0,
    }
}

/// The whole session state.
pub struct App {
    pub name: String,
    /// The row most recently selected in the song or track view.
    pub index: usize,
    /// The artist the periodic refresh rescans for, tracked by position.
    pub artist_index: usize,
    pub states: AppStates,
    pub data: AppData,
    pub tabs: TabState,
}

/// Down move on the browse tab: advances the song cursor circularly and
/// stages the newly selected song; elsewhere a no-op.
pub open spec fn spec_songs_down(a: App) -> App {
    if a.tabs.index != 0 {
        a
    } else if a.data.artist_songs@.len() == 0 {
        App { states: AppStates { artists_song_state: Cursor { pos: None }, ..a.states }, ..a }
    } else {
        let i = step_down(a.states.artists_song_state.pos, a.data.artist_songs@.len() as int);
        App {
            index: i as usize,
            states: AppStates {
                artists_song_state: Cursor { pos: Some(i as usize) },
                to_play: Some(a.data.artist_songs@[i]),
                ..a.states
            },
            ..a
        }
    }
}

/// Up move on the browse tab, mirror of `spec_songs_down`.
pub open spec fn spec_songs_up(a: App) -> App {
    if a.tabs.index != 0 {
        a
    } else if a.data.artist_songs@.len() == 0 {
        App { states: AppStates { artists_song_state: Cursor { pos: None }, ..a.states }, ..a }
    } else {
        let i = step_up(a.states.artists_song_state.pos, a.data.artist_songs@.len() as int);
        App {
            index: i as usize,
            states: AppStates {
                artists_song_state: Cursor { pos: Some(i as usize) },
                to_play: Some(a.data.artist_songs@[i]),
                ..a.states
            },
            ..a
        }
    }
}

/// Down move over the flat track table: advances the track cursor circularly
/// and stages the newly selected track.
pub open spec fn spec_next(a: App) -> App {
    if a.data.audios@.len() == 0 {
        App { states: AppStates { track_state: Cursor { pos: None }, ..a.states }, ..a }
    } else {
        let i = step_down(a.states.track_state.pos, a.data.audios@.len() as int);
        App {
            index: i as usize,
            states: AppStates {
                track_state: Cursor { pos: Some(i as usize) },
                to_play: Some(a.data.audios@[i]),
                ..a.states
            },
            ..a
        }
    }
}

/// Up move over the flat track table, mirror of `spec_next`.
pub open spec fn spec_prev(a: App) -> App {
    if a.data.audios@.len() == 0 {
        App { states: AppStates { track_state: Cursor { pos: None }, ..a.states }, ..a }
    } else {
        let i = step_up(a.states.track_state.pos, a.data.audios@.len() as int);
        App {
            index: i as usize,
            states: AppStates {
                track_state: Cursor { pos: Some(i as usize) },
                to_play: Some(a.data.audios@[i]),
                ..a.states
            },
            ..a
        }
    }
}

/// Down move over the artist list: advances the artist cursor circularly and
/// records the selected position for the refresh; stages nothing. Active on
/// every tab.
pub open spec fn spec_artists_down(a: App) -> App {
    if a.data.artists@.len() == 0 {
        App { states: AppStates { artists_state: Cursor { pos: None }, ..a.states }, ..a }
    } else {
        let i = step_down(a.states.artists_state.pos, a.data.artists@.len() as int);
        App {
            artist_index: i as usize,
            states: AppStates { artists_state: Cursor { pos: Some(i as usize) }, ..a.states },
            ..a
        }
    }
}

/// Up move over the artist list, mirror of `spec_artists_down`.
pub open spec fn spec_artists_up(a: App) -> App {
    if a.data.artists@.len() == 0 {
        App { states: AppStates { artists_state: Cursor { pos: None }, ..a.states }, ..a }
    } else {
        let i = step_up(a.states.artists_state.pos, a.data.artists@.len() as int);
        App {
            artist_index: i as usize,
            states: AppStates { artists_state: Cursor { pos: Some(i as usize) }, ..a.states },
            ..a
        }
    }
}

/// Tab switch to the right: only the active tab index moves.
pub open spec fn spec_tab_next(a: App) -> App {
    App {
        tabs: TabState {
            index: down_from(a.tabs.index as int, a.tabs.titles@.len() as int) as usize,
            ..a.tabs
        },
        ..a
    }
}

/// Tab switch to the left: only the active tab index moves.
pub open spec fn spec_tab_prev(a: App) -> App {
    App {
        tabs: TabState {
            index: up_from(a.tabs.index as int, a.tabs.titles@.len() as int) as usize,
            ..a.tabs
        },
        ..a
    }
}

/// The context-sensitive down key: song move on the browse tab, track move on
/// the tracks tab, nothing elsewhere.
pub open spec fn spec_on_down(a: App) -> App {
    if a.tabs.index == 0 {
        spec_songs_down(a)
    } else if a.tabs.index == 1 {
        spec_next(a)
    } else {
        a
    }
}

/// The context-sensitive up key, mirror of `spec_on_down`.
pub open spec fn spec_on_up(a: App) -> App {
    if a.tabs.index == 0 {
        spec_songs_up(a)
    } else if a.tabs.index == 1 {
        spec_prev(a)
    } else {
        a
    }
}

/// One character key event.
pub open spec fn spec_on_key(a: App, c: char) -> App {
    if c == 'q' {
        App { states: AppStates { should_quit: true, ..a.states }, ..a }
    } else if c == 'j' {
        spec_on_down(a)
    } else if c == 'k' {
        spec_on_up(a)
    } else if c == 'l' {
        spec_tab_next(a)
    } else if c == 'h' {
        spec_tab_prev(a)
    } else {
        a
    }
}

impl App {
    /// The session invariants: a well-formed tab strip, the scan invariants,
    /// every cursor inside its list, and a valid selected-artist position
    /// whenever there are artists.
    pub open spec fn wf(&self) -> bool {
        &&& self.tabs.wf()
        &&& self.data.wf()
        &&& cursor_in(self.states.artists_state, self.data.artists@.len())
        &&& cursor_in(self.states.artists_song_state, self.data.artist_songs@.len())
        &&& cursor_in(self.states.track_state, self.data.audios@.len())
        &&& (self.data.artists@.len() > 0 ==> self.artist_index < self.data.artists@.len())
    }

    /// A fresh session over the library root: one full scan, the four fixed
    /// tabs, nothing selected and nothing staged.
    pub fn new(audio_path: String) -> (r: Result<App, ScanError>)
        ensures
            r matches Ok(a) ==> {
                &&& a.wf()
                &&& a.data.audio_path == audio_path
                &&& a.data.artist_songs@.len() == 0
                &&& a.tabs.index == 0
                &&& a.tabs.titles@.len() == 4
                &&& a.index == 0
                &&& a.artist_index == 0
                &&& a.states.artists_state.pos is None
                &&& a.states.artists_song_state.pos is None
                &&& a.states.track_state.pos is None
                &&& !a.states.should_quit
                &&& a.states.to_play is None
            },
            r matches Err(e) ==> e == ScanError::Io,
    {
        let data = match AppData::new(audio_path) {
            Ok(d) => d,
            Err(e) => return Err(e),
        };
        let mut titles: Vec<String> = Vec::new();
        titles.push("Browse".to_owned());
        titles.push("Tracks".to_owned());
        titles.push("Play queue".to_owned());
        titles.push("Settings".to_owned());
        let tabs = TabState::new(titles);
        Ok(
            App {
                name: "Haydeh Music Player".to_owned(),
                index: 0,
                artist_index: 0,
                states: AppStates::new(),
                data,
                tabs,
            },
        )
    }

    /// A session over already-scanned data, with the four fixed tabs and
    /// nothing selected.
    pub fn from_data(data: AppData) -> (r: App)
        requires
            data.wf(),
        ensures
            r.wf(),
            r.data == data,
            r.tabs.index == 0,
            r.tabs.titles@.len() == 4,
            r.index == 0,
            r.artist_index == 0,
            r.states.artists_state.pos is None,
            r.states.artists_song_state.pos is None,
            r.states.track_state.pos is None,
            !r.states.should_quit,
            r.states.to_play is None,
    {
        let mut titles: Vec<String> = Vec::new();
        titles.push("Browse".to_owned());
        titles.push("Tracks".to_owned());
        titles.push("Play queue".to_owned());
        titles.push("Settings".to_owned());
        let tabs = TabState::new(titles);
        App {
            name: "Haydeh Music Player".to_owned(),
            index: 0,
            artist_index: 0,
            states: AppStates::new(),
            data,
            tabs,
        }
    }

    /// Down move on the browse tab's song list; stages the selected song.
    pub fn songs_down(&mut self)
        requires
            old(self).wf(),
        ensures
            final(self).wf(),
            *final(self) == spec_songs_down(*old(self)),
    {
        if self.tabs.index == 0 {
            let len: usize = self.data.artist_songs.len();
            let sel = self.states.artists_song_state.move_down(len);
            if let Some(i) = sel {
                self.index = i;
                self.states.to_play = Some(self.data.artist_songs[i].clone());
            }
        }
    }

    /// Up move on the browse tab's song list; stages the selected song.
    pub fn songs_up(&mut self)
        requires
            old(self).wf(),
        ensures
            final(self).wf(),
            *final(self) == spec_songs_up(*old(self)),
    {
        if self.tabs.index == 0 {
            let len: usize = self.data.artist_songs.len();
            let sel = self.states.artists_song_state.move_up(len);
            if let Some(i) = sel {
                self.index = i;
                self.states.to_play = Some(self.data.artist_songs[i].clone());
            }
        }
    }

    /// Down move over the flat track table; stages the selected track.
    pub fn next(&mut self)
        requires
            old(self).wf(),
        ensures
            final(self).wf(),
            *final(self) == spec_next(*old(self)),
    {
        let len: usize = self.data.audios.len();
        let sel = self.states.track_state.move_down(len);
        if let Some(i) = sel {
            self.index = i;
            self.states.to_play = Some(self.data.audios[i].clone());
        }
    }

    /// Up move over the flat track table; stages the selected track.
    pub fn prev(&mut self)
        requires
            old(self).wf(),
        ensures
            final(self).wf(),
            *final(self) == spec_prev(*old(self)),
    {
        let len: usize = self.data.audios.len();
        let sel = self.states.track_state.move_up(len);
        if let Some(i) = sel {
            self.index = i;
            self.states.to_play = Some(self.data.audios[i].clone());
        }
    }

    /// Down move over the artist list; active on every tab, stages nothing.
    pub fn artists_down(&mut self)
        requires
            old(self).wf(),
        ensures
            final(self).wf(),
            *final(self) == spec_artists_down(*old(self)),
    {
        let len: usize = self.data.artists.len();
        let sel = self.states.artists_state.move_down(len);
        if let Some(i) = sel {
            self.artist_index = i;
        }
    }

    /// Up move over the artist list; active on every tab, stages nothing.
    pub fn artists_up(&mut self)
        requires
            old(self).wf(),
        ensures
            final(self).wf(),
            *final(self) == spec_artists_up(*old(self)),
    {
        let len: usize = self.data.artists.len();
        let sel = self.states.artists_state.move_up(len);
        if let Some(i) = sel {
            self.artist_index = i;
        }
    }

    /// Tab switch to the right. Touches no cursor and no staged track.
    pub fn on_right(&mut self)
        requires
            old(self).wf(),
        ensures
            final(self).wf(),
            *final(self) == spec_tab_next(*old(self)),
            final(self).states == old(self).states,
            final(self).data == old(self).data,
            final(self).index == old(self).index,
            final(self).artist_index == old(self).artist_index,
    {
        self.tabs.next();
    }

    /// Tab switch to the left. Touches no cursor and no staged track.
    pub fn on_left(&mut self)
        requires
            old(self).wf(),
        ensures
            final(self).wf(),
            *final(self) == spec_tab_prev(*old(self)),
            final(self).states == old(self).states,
            final(self).data == old(self).data,
            final(self).index == old(self).index,
            final(self).artist_index == old(self).artist_index,
    {
        self.tabs.prev();
    }

    /// The context-sensitive down key.
    pub fn on_down(&mut self)
        requires
            old(self).wf(),
        ensures
            final(self).wf(),
            *final(self) == spec_on_down(*old(self)),
    {
        if self.tabs.index == 0 {
            self.songs_down();
        } else if self.tabs.index == 1 {
            self.next();
        }
    }

    /// The context-sensitive up key.
    pub fn on_up(&mut self)
        requires
            old(self).wf(),
        ensures
            final(self).wf(),
            *final(self) == spec_on_up(*old(self)),
    {
        if self.tabs.index == 0 {
            self.songs_up();
        } else if self.tabs.index == 1 {
            self.prev();
        }
    }

    /// One character key event: quit, the vertical moves, the tab switches;
    /// anything else is ignored.
    pub fn on_key(&mut self, c: char)
        requires
            old(self).wf(),
        ensures
            final(self).wf(),
            *final(self) == spec_on_key(*old(self), c),
    {
        match c {
            'q' => {
                self.states.should_quit = true;
            },
            'j' => {
                self.on_down();
            },
            'k' => {
                self.on_up();
            },
            'l' => {
                self.on_right();
            },
            'h' => {
                self.on_left();
            },
            _ => {},
        }
    }

    /// The activation step: hands out the staged track for the playback
    /// dispatcher, or nothing when no track is staged. Leaves the staged
    /// track in place, so a failed playback can be retried.
    pub fn on_play(&self) -> (r: Option<Audio>)
        ensures
            r == self.states.to_play,
    {
        match &self.states.to_play {
            Some(t) => Some(t.clone()),
            None => None,
        }
    }

    /// Scans the tree under `path` and returns its distinct artist names.
    pub fn get_artists(path: &String) -> (r: Result<Vec<String>, ScanError>)
        ensures
            r matches Ok(names) ==> forall|i1: int, i2: int|
                0 <= i1 < i2 < names@.len() ==> names@[i1]@ != names@[i2]@,
            r matches Err(e) ==> e == ScanError::Io,
    {
        let entries = match crate::scan::walk_entries(path) {
            Ok(es) => es,
            Err(e) => return Err(e),
        };
        let tracks = crate::scan::tracks_from_entries(&entries);
        Ok(distinct_artists(&tracks))
    }

    /// Installs a freshly scanned song list, which must be all one artist's:
    /// ArtistSongs is replaced wholesale and the song cursor is re-clamped
    /// (dropped when it falls past the new end). Nothing else moves — in
    /// particular neither the track collection nor the artist set.
    pub fn install_artist_songs(&mut self, songs: Vec<Audio>)
        requires
            old(self).wf(),
            forall|k1: int, k2: int|
                0 <= k1 < songs@.len() && 0 <= k2 < songs@.len() ==> (
                #[trigger] songs@[k1]).artist@ == (#[trigger] songs@[k2]).artist@,
        ensures
            final(self).wf(),
            final(self).data.audios == old(self).data.audios,
            final(self).data.artists == old(self).data.artists,
            final(self).data.audio_path == old(self).data.audio_path,
            final(self).data.artist_songs == songs,
            final(self).states.artists_state == old(self).states.artists_state,
            final(self).states.track_state == old(self).states.track_state,
            final(self).states.should_quit == old(self).states.should_quit,
            final(self).states.to_play == old(self).states.to_play,
            final(self).states.artists_song_state.pos == (match old(self).states.artists_song_state.pos {
                Some(i) => if i < songs@.len() {
                    Some(i)
                } else {
                    None::<usize>
                },
                None => None::<usize>,
            }),
            final(self).tabs == old(self).tabs,
            final(self).index == old(self).index,
            final(self).artist_index == old(self).artist_index,
            final(self).name == old(self).name,
    {
        let n: usize = songs.len();
        self.data.artist_songs = songs;
        match self.states.artists_song_state.selected() {
            Some(i) => if i >= n {
                self.states.artists_song_state.select(None);
            },
            None => {},
        }
    }

    /// The periodic per-artist refresh: rescans the library root for the
    /// artist at the selected position and replaces the song list wholesale.
    /// With no artists there is nothing to refresh and nothing happens. The
    /// track collection and the artist set are never touched; on a failed
    /// scan the whole state is left as it was.
    pub fn refresh_artist_songs(&mut self) -> (r: Result<(), ScanError>)
        requires
            old(self).wf(),
        ensures
            final(self).wf(),
            final(self).data.audios == old(self).data.audios,
            final(self).data.artists == old(self).data.artists,
            final(self).data.audio_path == old(self).data.audio_path,
            final(self).states.artists_state == old(self).states.artists_state,
            final(self).states.track_state == old(self).states.track_state,
            final(self).states.should_quit == old(self).states.should_quit,
            final(self).states.to_play == old(self).states.to_play,
            final(self).tabs == old(self).tabs,
            final(self).index == old(self).index,
            final(self).artist_index == old(self).artist_index,
            old(self).data.artists@.len() == 0 ==> r is Ok && *final(self) == *old(self),
            r is Err ==> *final(self) == *old(self) && r == Err::<(), ScanError>(ScanError::Io),
            r is Ok && old(self).data.artists@.len() > 0 ==> forall|k: int|
                0 <= k < final(self).data.artist_songs@.len()
                    ==> (#[trigger] final(self).data.artist_songs@[k]).artist@
                    == old(self).data.artists@[old(self).artist_index as int]@,
    {
        if self.data.artists.len() == 0 {
            return Ok(());
        }
        let artist = self.data.artists[self.artist_index].clone();
        let songs = match Audio::get_artist_songs(artist, &self.data.audio_path) {
            Ok(s) => s,
            Err(e) => return Err(e),
        };
        self.install_artist_songs(songs);
        Ok(())
    }
}

/// Staging law: a song or track move over a non-empty list stages exactly the
/// track that ends up under the moved cursor.
pub proof fn lemma_staging_law(a: App)
    requires
        a.wf(),
        a.data.artist_songs@.len() <= usize::MAX,
        a.data.audios@.len() <= usize::MAX,
    ensures
        a.tabs.index == 0 && a.data.artist_songs@.len() > 0 ==> {
            let b = spec_songs_down(a);
            b.states.artists_song_state.pos matches Some(i) && b.states.to_play == Some(
                b.data.artist_songs@[i as int],
            )
        },
        a.tabs.index == 0 && a.data.artist_songs@.len() > 0 ==> {
            let b = spec_songs_up(a);
            b.states.artists_song_state.pos matches Some(i) && b.states.to_play == Some(
                b.data.artist_songs@[i as int],
            )
        },
        a.data.audios@.len() > 0 ==> {
            let b = spec_next(a);
            b.states.track_state.pos matches Some(i) && b.states.to_play == Some(
                b.data.audios@[i as int],
            )
        },
        a.data.audios@.len() > 0 ==> {
            let b = spec_prev(a);
            b.states.track_state.pos matches Some(i) && b.states.to_play == Some(
                b.data.audios@[i as int],
            )
        },
{
    if a.tabs.index == 0 && a.data.artist_songs@.len() > 0 {
        let len = a.data.artist_songs@.len() as int;
        assert(0 <= step_down(a.states.artists_song_state.pos, len) < len);
        assert(0 <= step_up(a.states.artists_song_state.pos, len) < len);
    }
    if a.data.audios@.len() > 0 {
        let len = a.data.audios@.len() as int;
        assert(0 <= step_down(a.states.track_state.pos, len) < len);
        assert(0 <= step_up(a.states.track_state.pos, len) < len);
    }
}

} // verus!
