//! The rendering policy: a pure function from the application state to what
//! the page shows, described as plain data rather than markup.

use vstd::prelude::*;

use crate::state::{App, AppMsg, RequestedVideos};
use crate::video::Video;

verus! {

/// The clickable list: one title per fetched video, in fetch order.
#[derive(Debug, PartialEq, Eq)]
pub struct VideosList {
    pub titles: Vec<String>,
}

/// The detail panel: the full record of the selected video.
#[derive(Debug, PartialEq, Eq)]
pub struct VideoDetails {
    pub video: Video,
}

/// What the page shows in each lifecycle state: a heading alone while
/// loading or after a failure, and on success the heading, the title list,
/// and the detail panel while a video is selected.
#[derive(Debug, PartialEq, Eq)]
pub enum ViewModel {
    LoadingView,
    ErrorView,
    SuccessView { list: VideosList, details: Option<VideoDetails> },
}

/// Whether the detail panel is on the page.
pub open spec fn shows_details(vm: ViewModel) -> bool {
    vm matches ViewModel::SuccessView { list: _, details: Some(_) }
}

impl ViewModel {
    /// The heading shown for this view: a fixed text per lifecycle state.
    pub fn heading(&self) -> (h: String)
        ensures
            self is LoadingView ==> h@ == "Videos Loading"@,
            self is ErrorView ==> h@ == "Error loading videos!"@,
            self is SuccessView ==> h@ == "RustConf Explorer"@,
    {
        match self {
            ViewModel::LoadingView => "Videos Loading".to_owned(),
            ViewModel::ErrorView => "Error loading videos!".to_owned(),
            ViewModel::SuccessView { .. } => "RustConf Explorer".to_owned(),
        }
    }
}

/// The list view over a fetched batch: exactly the titles, in order.
pub fn videos_list(videos: &Vec<Video>) -> (list: VideosList)
    ensures
        list.titles@.len() == videos@.len(),
        forall|k: int| 0 <= k < videos@.len() ==> #[trigger] list.titles@[k]@ == videos@[k].title@,
{
    let mut titles: Vec<String> = Vec::new();
    let mut i: usize = 0;
    while i < videos.len()
        invariant
            i <= videos@.len(),
            titles@.len() == i,
            forall|k: int| 0 <= k < i ==> #[trigger] titles@[k]@ == videos@[k].title@,
        decreases videos@.len() - i,
    {
        titles.push(videos[i].title.clone());
        i = i + 1;
    }
    VideosList { titles }
}

/// The detail view of one record: carries the record whole.
pub fn video_details(video: &Video) -> (details: VideoDetails)
    ensures
        details.video == *video,
{
    VideoDetails { video: video.clone() }
}

impl App {
    /// The rendering policy, a pure function of the current state: the
    /// matching heading view; on success also the title list, and the detail
    /// panel exactly when a video is selected — never while loading or after
    /// a failure.
    pub fn view(&self) -> (vm: ViewModel)
        ensures
            (vm is LoadingView) <==> (self.videos is Loading),
            (vm is ErrorView) <==> (self.videos is Error),
            (vm is SuccessView) <==> (self.videos is Success),
            shows_details(vm) <==> (self.videos is Success && self.selected_video is Some),
            self.videos matches RequestedVideos::Success(vids) ==> (vm matches
                ViewModel::SuccessView { list, details }
                && list.titles@.len() == vids@.len()
                && (forall|k: int|
                    0 <= k < vids@.len() ==> #[trigger] list.titles@[k]@ == vids@[k].title@)
                && (self.selected_video matches Some(sel) ==> details matches Some(d)
                    && d.video == sel)),
    {
        match &self.videos {
            RequestedVideos::Loading => ViewModel::LoadingView,
            RequestedVideos::Error => ViewModel::ErrorView,
            RequestedVideos::Success(vids) => {
                let details = match &self.selected_video {
                    Some(sel) => Some(video_details(sel)),
                    None => None,
                };
                ViewModel::SuccessView { list: videos_list(vids), details }
            }
        }
    }

    /// The message produced when the user activates list item `i`: only the
    /// success page shows clickable items, and item `i` carries record `i`
    /// of the fetched batch.
    pub fn click(&self, i: usize) -> (msg: Option<AppMsg>)
        ensures
            (msg is Some) <==> (self.videos is Success
                && i < self.videos->Success_0@.len()),
            (self.videos is Success && i < self.videos->Success_0@.len())
                ==> (msg matches Some(AppMsg::SelectVideo(v))
                    && v == self.videos->Success_0@[i as int]),
    {
        match &self.videos {
            RequestedVideos::Success(vids) => {
                if i < vids.len() {
                    Some(AppMsg::SelectVideo(vids[i].clone()))
                } else {
                    None
                }
            }
            _ => None,
        }
    }
}

} // verus!
