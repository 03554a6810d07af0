//! The library scanner: walks the tree under a root, keeps the entries whose
//! file name carries the audio suffix, and extracts each one's metadata tag
//! into a track record. Only the walk and the tag read touch the disk; which
//! entries qualify and how a record is built from a tag is pinned exactly.

use vstd::prelude::*;
use vstd::string::StrSliceExecFns;

use crate::track::Audio;
use crate::track::Tag;

verus! {

/// Why a scan failed.
#[derive(Clone, Copy, Debug, PartialEq, Eq, Structural)]
pub enum ScanError {
    /// The tree under the root could not be traversed.
    Io,
}

/// One entry met while walking the library root.
pub struct ScanEntry {
    /// The entry's full path.
    pub path: String,
    /// The entry's bare file name.
    pub file_name: String,
    /// Whether the entry is a regular file (directories never qualify).
    pub is_file: bool,
}

/// Does the name end with the recognized audio suffix? An exact,
/// case-sensitive suffix match on the bare name: nothing else is recognized,
/// deliberately, since loosening it would change which files get indexed.
pub open spec fn has_audio_suffix(name: Seq<char>) -> bool {
    &&& name.len() >= 3
    &&& name[name.len() - 3] == 'm'
    &&& name[name.len() - 2] == 'p'
    &&& name[name.len() - 1] == '3'
}

/// A walked entry qualifies for the track collection when it is a regular
/// file whose name ends with the audio suffix.
pub open spec fn qualifies(e: ScanEntry) -> bool {
    e.is_file && has_audio_suffix(e.file_name@)
}

/// The qualifying entries of a walk, in walk order.
pub open spec fn audio_entries(s: Seq<ScanEntry>) -> Seq<ScanEntry> {
    s.filter(|e: ScanEntry| qualifies(e))
}

/// The tracks of `tracks` whose artist field equals `artist` exactly, in
/// order.
pub open spec fn songs_of(tracks: Seq<Audio>, artist: Seq<char>) -> Seq<Audio> {
    tracks.filter(|t: Audio| t.artist@ == artist)
}

/// Is `name` among `names`?
pub open spec fn has_name(names: Seq<String>, name: Seq<char>) -> bool {
    exists|i: int| 0 <= i < names.len() && (#[trigger] names[i])@ == name
}

/// Does `name` appear as the artist of one of the first `upto` tracks?
pub open spec fn appears_as_artist(tracks: Seq<Audio>, upto: int, name: Seq<char>) -> bool {
    exists|k: int| 0 <= k < upto && (#[trigger] tracks[k]).artist@ == name
}

/// Relies on walkdir::WalkDir: yields every entry of the tree rooted at the
/// given path (the root itself included), or an error entry when something
/// cannot be read. What comes back depends on the directory tree, so nothing
/// is promised of it.
#[verifier::external_body]
pub(crate) fn walk_entries(root: &String) -> (r: Result<Vec<ScanEntry>, ScanError>) {
    let mut out: Vec<ScanEntry> = Vec::new();
    for entry in walkdir::WalkDir::new(root) {
        match entry {
            Ok(e) => out.push(ScanEntry {
                path: e.path().to_string_lossy().into_owned(),
                file_name: e.file_name().to_string_lossy().into_owned(),
                is_file: e.file_type().is_file(),
            }),
            Err(_) => return Err(ScanError::Io),
        }
    }
    Ok(out)
}

/// Relies on mp3_metadata::read_from_file: reads the file at the given path
/// and parses its metadata. Returns the tag's text fields when the file is
/// readable and carries a tag, and nothing otherwise. What comes back depends
/// on the disk, so nothing is promised of it.
#[verifier::external_body]
pub(crate) fn read_tag(path: &String) -> (r: Option<Tag>) {
    match mp3_metadata::read_from_file(path) {
        Ok(meta) => match meta.tag {
            Some(t) => Some(Tag { title: t.title, artist: t.artist, album: t.album }),
            None => None,
        },
        Err(_) => None,
    }
}

impl Audio {
    /// Does this entry's file name end with the audio suffix?
    pub fn is_mp3(entry: &ScanEntry) -> (r: bool)
        ensures
            r == has_audio_suffix(entry.file_name@),
    {
        let name: &str = entry.file_name.as_str();
        let n: usize = name.unicode_len();
        if n < 3 {
            return false;
        }
        let a: bool = name.get_char(n - 3) == 'm';
        let b: bool = name.get_char(n - 2) == 'p';
        let c: bool = name.get_char(n - 1) == '3';
        a && b && c
    }
}

/// Builds the track list for the qualifying entries of a walk, in walk order,
/// reading each one's metadata tag from the disk. The records' paths are
/// exactly the qualifying entries' paths; the text fields hold whatever the
/// tag read gave.
pub fn tracks_from_entries(entries: &Vec<ScanEntry>) -> (r: Vec<Audio>)
    ensures
        r@.len() == audio_entries(entries@).len(),
        forall|k: int|
            0 <= k < r@.len() ==> (#[trigger] r@[k]).path == audio_entries(entries@)[k].path,
{
    let mut tracks: Vec<Audio> = Vec::new();
    let mut j: usize = 0;
    proof {
        reveal(Seq::filter);
        assert(audio_entries(entries@.take(0)).len() == 0);
    }
    while j < entries.len()
        invariant
            j <= entries@.len(),
            tracks@.len() == audio_entries(entries@.take(j as int)).len(),
            forall|k: int|
                0 <= k < tracks@.len() ==> (#[trigger] tracks@[k]).path == audio_entries(
                    entries@.take(j as int),
                )[k].path,
        decreases entries@.len() - j,
    {
        proof {
            reveal(Seq::filter);
            assert(entries@.take(j as int + 1).drop_last() =~= entries@.take(j as int));
            assert(entries@.take(j as int + 1).last() == entries@[j as int]);
            if qualifies(entries@[j as int]) {
                assert(audio_entries(entries@.take(j as int + 1)) == audio_entries(
                    entries@.take(j as int),
                ).push(entries@[j as int]));
            } else {
                assert(audio_entries(entries@.take(j as int + 1)) == audio_entries(
                    entries@.take(j as int),
                ));
            }
        }
        let e = &entries[j];
        if e.is_file && Audio::is_mp3(e) {
            let tag = read_tag(&e.path);
            let t = Audio::from_tag(e.path.clone(), tag);
            tracks.push(t);
        }
        j += 1;
    }
    proof {
        assert(entries@.take(entries@.len() as int) =~= entries@);
    }
    tracks
}

/// Keeps, in order, the tracks whose artist field equals `artist` exactly.
pub fn filter_by_artist(tracks: &Vec<Audio>, artist: &String) -> (r: Vec<Audio>)
    ensures
        r@ == songs_of(tracks@, artist@),
{
    let mut songs: Vec<Audio> = Vec::new();
    let mut j: usize = 0;
    proof {
        reveal(Seq::filter);
        assert(songs_of(tracks@.take(0), artist@) =~= Seq::<Audio>::empty());
    }
    while j < tracks.len()
        invariant
            j <= tracks@.len(),
            songs@ == songs_of(tracks@.take(j as int), artist@),
        decreases tracks@.len() - j,
    {
        proof {
            reveal(Seq::filter);
            assert(tracks@.take(j as int + 1).drop_last() =~= tracks@.take(j as int));
            assert(tracks@.take(j as int + 1).last() == tracks@[j as int]);
            if tracks@[j as int].artist@ == artist@ {
                assert(songs_of(tracks@.take(j as int + 1), artist@) == songs_of(
                    tracks@.take(j as int),
                    artist@,
                ).push(tracks@[j as int]));
            } else {
                assert(songs_of(tracks@.take(j as int + 1), artist@) == songs_of(
                    tracks@.take(j as int),
                    artist@,
                ));
            }
        }
        let t = &tracks[j];
        if t.artist == *artist {
            songs.push(t.clone());
        }
        j += 1;
    }
    proof {
        assert(tracks@.take(tracks@.len() as int) =~= tracks@);
    }
    songs
}

/// Is `name` among `names`?
fn contains_name(names: &Vec<String>, name: &String) -> (r: bool)
    ensures
        r == has_name(names@, name@),
{
    let mut i: usize = 0;
    while i < names.len()
        invariant
            i <= names@.len(),
            forall|k: int| 0 <= k < i ==> (#[trigger] names@[k])@ != name@,
        decreases names@.len() - i,
    {
        if names[i] == *name {
            return true;
        }
        i += 1;
    }
    false
}

/// The artist names occurring in `tracks`: each exactly once, every one the
/// artist of some track, every track's artist among them, in order of first
/// appearance.
pub fn distinct_artists(tracks: &Vec<Audio>) -> (r: Vec<String>)
    ensures
        forall|i: int|
            0 <= i < r@.len() ==> appears_as_artist(
                tracks@,
                tracks@.len() as int,
                (#[trigger] r@[i])@,
            ),
        forall|k: int|
            0 <= k < tracks@.len() ==> has_name(r@, (#[trigger] tracks@[k]).artist@),
        forall|i1: int, i2: int| 0 <= i1 < i2 < r@.len() ==> r@[i1]@ != r@[i2]@,
{
    let mut names: Vec<String> = Vec::new();
    let mut j: usize = 0;
    while j < tracks.len()
        invariant
            j <= tracks@.len(),
            forall|i: int|
                0 <= i < names@.len() ==> appears_as_artist(
                    tracks@,
                    j as int,
                    (#[trigger] names@[i])@,
                ),
            forall|k: int| 0 <= k < j ==> has_name(names@, (#[trigger] tracks@[k]).artist@),
            forall|i1: int, i2: int| 0 <= i1 < i2 < names@.len() ==> names@[i1]@ != names@[i2]@,
        decreases tracks@.len() - j,
    {
        let t = &tracks[j];
        if !contains_name(&names, &t.artist) {
            let ghost old_names = names@;
            names.push(t.artist.clone());
            proof {
                assert forall|i: int| 0 <= i < names@.len() implies appears_as_artist(
                    tracks@,
                    j as int + 1,
                    (#[trigger] names@[i])@,
                ) by {
                    if i < old_names.len() {
                        assert(names@[i] == old_names[i]);
                        let k = choose|k: int|
                            0 <= k < j && (#[trigger] tracks@[k]).artist@ == old_names[i]@;
                        assert(0 <= k < j as int + 1 && tracks@[k].artist@ == names@[i]@);
                    } else {
                        assert(names@[i]@ == tracks@[j as int].artist@);
                    }
                }
                assert forall|k: int| 0 <= k < j as int + 1 implies has_name(
                    names@,
                    (#[trigger] tracks@[k]).artist@,
                ) by {
                    if k < j as int {
                        let i = choose|i: int|
                            0 <= i < old_names.len() && (#[trigger] old_names[i])@
                                == tracks@[k].artist@;
                        assert((names@[i])@ == tracks@[k].artist@);
                    } else {
                        assert((names@[old_names.len() as int])@ == tracks@[k].artist@);
                    }
                }
            }
        } else {
            proof {
                assert forall|i: int| 0 <= i < names@.len() implies appears_as_artist(
                    tracks@,
                    j as int + 1,
                    (#[trigger] names@[i])@,
                ) by {
                    let k = choose|k: int|
                        0 <= k < j && (#[trigger] tracks@[k]).artist@ == names@[i]@;
                    assert(0 <= k < j as int + 1 && tracks@[k].artist@ == names@[i]@);
                }
            }
        }
        j += 1;
    }
    names
}

impl Audio {
    /// Scans the tree under `path` and returns every audio track found there.
    /// Which entries the walk yields depends on the directory tree, so the
    /// contract of the walk promises nothing; the selection of entries and
    /// the building of each record are pinned by `tracks_from_entries`.
    pub fn get_audios(path: &String) -> (r: Result<Vec<Audio>, ScanError>)
        ensures
            r matches Err(e) ==> e == ScanError::Io,
    {
        let entries = match walk_entries(path) {
            Ok(es) => es,
            Err(e) => return Err(e),
        };
        Ok(tracks_from_entries(&entries))
    }

    /// Rescans the whole tree under `path` and keeps only the tracks whose
    /// artist field equals `artist` exactly. Every record that comes back
    /// carries that artist.
    pub fn get_artist_songs(artist: String, path: &String) -> (r: Result<Vec<Audio>, ScanError>)
        ensures
            r matches Ok(songs) ==> forall|k: int|
                0 <= k < songs@.len() ==> (#[trigger] songs@[k]).artist@ == artist@,
            r matches Err(e) ==> e == ScanError::Io,
    {
        broadcast use vstd::seq_lib::group_filter_ensures;

        let entries = match walk_entries(path) {
            Ok(es) => es,
            Err(e) => return Err(e),
        };
        let tracks = tracks_from_entries(&entries);
        let songs = filter_by_artist(&tracks, &artist);
        Ok(songs)
    }
}

} // verus!
