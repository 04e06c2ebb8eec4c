//! Track records: the immutable metadata of one audio file in the queue.

use vstd::prelude::*;

verus! {

/// One queued audio track.
///
/// A `Song` is created once, when a file is admitted to the queue, and never
/// mutated afterwards. Tag fields that could not be read default to `"-"`;
/// a missing or non-positive sample rate defaults to 44100 and a missing or
/// non-positive channel count to 2, so both are always positive.
#[derive(Debug)]
pub struct Song {
    pub file_path: String,
    pub title: String,
    pub artist: String,
    pub album: String,
    pub samplerate: usize,
    pub channels: usize,
}

/// The title, artist or album string that a track record keeps for a tag:
/// the tag's value when it was readable, `"-"` otherwise.
pub open spec fn tag_or_dash(tag: Option<String>) -> Seq<char> {
    match tag {
        Some(t) => t@,
        None => "-"@,
    }
}

/// The sample rate or channel count that a track record keeps: the reported
/// value when it is positive, the given default otherwise.
pub open spec fn positive_or(value: Option<usize>, default: usize) -> int {
    match value {
        Some(v) => if v > 0 { v as int } else { default as int },
        None => default as int,
    }
}

impl Song {
    /// The audio properties are usable: positive sample rate and channel count.
    pub open spec fn wf(&self) -> bool {
        self.samplerate > 0 && self.channels > 0
    }

    /// Builds a track record from whatever metadata the tag reader could
    /// extract, applying the documented defaults for every absent field.
    pub fn new(
        file_path: String,
        title: Option<String>,
        artist: Option<String>,
        album: Option<String>,
        samplerate: Option<usize>,
        channels: Option<usize>,
    ) -> (s: Song)
        ensures
            s.wf(),
            s.file_path == file_path,
            s.title@ == tag_or_dash(title),
            s.artist@ == tag_or_dash(artist),
            s.album@ == tag_or_dash(album),
            s.samplerate == positive_or(samplerate, 44100),
            s.channels == positive_or(channels, 2),
    {
        let title_field = match title {
            Some(t) => t,
            None => "-".to_owned(),
        };
        let artist_field = match artist {
            Some(a) => a,
            None => "-".to_owned(),
        };
        let album_field = match album {
            Some(a) => a,
            None => "-".to_owned(),
        };
        let samplerate_field = match samplerate {
            Some(r) => if r > 0 { r } else { 44100 },
            None => 44100,
        };
        let channels_field = match channels {
            Some(c) => if c > 0 { c } else { 2 },
            None => 2,
        };
        Song {
            file_path,
            title: title_field,
            artist: artist_field,
            album: album_field,
            samplerate: samplerate_field,
            channels: channels_field,
        }
    }

    pub fn title_clone(&self) -> (r: String)
        ensures
            r == self.title,
    {
        self.title.clone()
    }

    pub fn album_clone(&self) -> (r: String)
        ensures
            r == self.album,
    {
        self.album.clone()
    }

    pub fn artist_clone(&self) -> (r: String)
        ensures
            r == self.artist,
    {
        self.artist.clone()
    }

    pub fn file_path_clone(&self) -> (r: String)
        ensures
            r == self.file_path,
    {
        self.file_path.clone()
    }
}

impl Clone for Song {
    fn clone(&self) -> (s: Self)
        ensures
            s == *self,
    {
        Song {
            file_path: self.file_path.clone(),
            title: self.title.clone(),
            artist: self.artist.clone(),
            album: self.album.clone(),
            samplerate: self.samplerate,
            channels: self.channels,
        }
    }
}

} // verus!
