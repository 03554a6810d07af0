//! Track records: one audio file plus the title, artist and album text taken
//! from its embedded metadata tag.

use vstd::prelude::*;

verus! {

/// The text fields of an embedded metadata tag.
pub struct Tag {
    pub title: String,
    pub artist: String,
    pub album: String,
}

/// One audio track: best-effort tag text plus the file's path. Immutable once
/// built; duplicating it duplicates the whole value.
pub struct Audio {
    pub title: String,
    pub artist: String,
    pub album: String,
    pub path: String,
}

impl Clone for Audio {
    fn clone(&self) -> (r: Audio)
        ensures
            r == *self,
    {
        Audio {
            title: self.title.clone(),
            artist: self.artist.clone(),
            album: self.album.clone(),
            path: self.path.clone(),
        }
    }
}

impl Audio {
    /// Builds the track record for `path` from the tag found there: the tag's
    /// text when one is present, empty text otherwise. The path is always
    /// kept.
    pub fn from_tag(path: String, tag: Option<Tag>) -> (r: Audio)
        ensures
            r.path == path,
            tag matches Some(t) ==> r.title == t.title && r.artist == t.artist && r.album
                == t.album,
            tag is None ==> r.title@ == Seq::<char>::empty() && r.artist@ == Seq::<char>::empty()
                && r.album@ == Seq::<char>::empty(),
    {
        match tag {
            Some(t) => Audio { title: t.title, artist: t.artist, album: t.album, path },
            None => Audio {
                title: String::new(),
                artist: String::new(),
                album: String::new(),
                path,
            },
        }
    }
}

} // verus!
