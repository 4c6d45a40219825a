use vstd::prelude::*;

verus! {

/// An audio file identified by its path, with its duration and optional tags.
#[derive(Debug)]
pub struct Song {
    pub file_path: String,
    pub duration_ms: u64,
    pub title: Option<String>,
    pub artist: Option<String>,
    pub album: Option<String>,
}

fn copy_tag(t: &Option<String>) -> (r: Option<String>)
    ensures
        r == *t,
{
    match t {
        Some(s) => Some(s.clone()),
        None => None,
    }
}

impl Song {
    /// A song without tags.
    pub fn new(file_path: String, duration_ms: u64) -> (r: Song)
        ensures
            r.file_path == file_path,
            r.duration_ms == duration_ms,
            r.title is None,
            r.artist is None,
            r.album is None,
    {
        Song { file_path, duration_ms, title: None, artist: None, album: None }
    }

    pub fn file_path(&self) -> (r: &String)
        ensures
            r == &self.file_path,
    {
        &self.file_path
    }

    pub fn duration_ms(&self) -> (r: u64)
        ensures
            r == self.duration_ms,
    {
        self.duration_ms
    }

    /// A field-for-field copy of this song.
    pub fn duplicate(&self) -> (r: Song)
        ensures
            r == *self,
    {
        Song {
            file_path: self.file_path.clone(),
            duration_ms: self.duration_ms,
            title: copy_tag(&self.title),
            artist: copy_tag(&self.artist),
            album: copy_tag(&self.album),
        }
    }
}

} // verus!
