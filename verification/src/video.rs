//! The unit of displayed data: one video record.

use vstd::prelude::*;

verus! {

/// One fetched record: identity, display title, presenter, and playback URL.
/// Records are created by the payload decoder and never mutated afterwards.
#[derive(Debug, PartialEq, Eq)]
pub struct Video {
    pub id: u64,
    pub title: String,
    pub speaker: String,
    pub url: String,
}

/// The mathematical value of a `Video`: the same fields, with the strings as
/// character sequences.
pub struct VideoView {
    pub id: u64,
    pub title: Seq<char>,
    pub speaker: Seq<char>,
    pub url: Seq<char>,
}

impl View for Video {
    type V = VideoView;

    open spec fn view(&self) -> VideoView {
        VideoView {
            id: self.id,
            title: self.title@,
            speaker: self.speaker@,
            url: self.url@,
        }
    }
}

impl Clone for Video {
    fn clone(&self) -> (r: Self)
        ensures
            r == *self,
    {
        Video {
            id: self.id,
            title: self.title.clone(),
            speaker: self.speaker.clone(),
            url: self.url.clone(),
        }
    }
}

} // verus!
