//! The root application state and its update rule.

use vstd::prelude::*;

use crate::payload::{parse_videos, spec_parse_videos};
use crate::video::Video;

verus! {

/// The lifecycle of the one data fetch: it starts `Loading` and resolves, at
/// most once, to `Error` or to `Success` carrying the decoded records. No
/// variant mixes an error with data.
#[derive(Debug, PartialEq, Eq)]
pub enum RequestedVideos {
    Loading,
    Error,
    Success(Vec<Video>),
}

/// The two events the application reacts to: the fetch resolving, and the
/// user clicking a listed video.
#[derive(Debug, PartialEq, Eq)]
pub enum AppMsg {
    SetVideos(RequestedVideos),
    SelectVideo(Video),
}

/// The root application state: the fetch lifecycle plus the current
/// selection, which is absent until the user clicks an item.
pub struct App {
    pub videos: RequestedVideos,
    pub selected_video: Option<Video>,
}

impl App {
    /// The update rule as a transition function. A fetch result is applied
    /// only while the fetch is still pending, so a result delivered after
    /// the state has resolved changes nothing; a selection event overwrites
    /// the selection and leaves the fetch state alone.
    pub open spec fn step(self, msg: AppMsg) -> App {
        match msg {
            AppMsg::SetVideos(res) => if self.videos is Loading {
                App { videos: res, selected_video: self.selected_video }
            } else {
                self
            },
            AppMsg::SelectVideo(v) => App { videos: self.videos, selected_video: Some(v) },
        }
    }

    /// Before any event the fetch is pending and nothing is selected.
    pub fn create() -> (app: App)
        ensures
            app.videos is Loading,
            app.selected_video is None,
    {
        App { videos: RequestedVideos::Loading, selected_video: None }
    }

    /// Applies one event, exactly as `step` describes, and always asks for a
    /// re-render.
    pub fn update(&mut self, msg: AppMsg) -> (render: bool)
        ensures
            *final(self) == old(self).step(msg),
            render,
    {
        match msg {
            AppMsg::SetVideos(res) => {
                if matches!(self.videos, RequestedVideos::Loading) {
                    self.videos = res;
                }
            }
            AppMsg::SelectVideo(video) => {
                self.selected_video = Some(video);
            }
        }
        true
    }
}

/// The state the one fetch resolves to. A transport failure arrives as
/// `None`, a received body as `Some`. A body that decodes under the payload
/// grammar yields `Success` with exactly the decoded records; any malformed
/// body yields `Error`, just as any transport failure does — the two causes
/// are deliberately not told apart.
pub fn videos_from_fetch(body: Option<String>) -> (res: RequestedVideos)
    ensures
        body is None ==> res is Error,
        body matches Some(b) ==> match spec_parse_videos(b@) {
            Some(l) => res matches RequestedVideos::Success(vids) && vids@.len() == l.len() && (
            forall|k: int| 0 <= k < l.len() ==> #[trigger] vids@[k]@ == l[k]),
            None => res is Error,
        },
{
    match body {
        Some(b) => match parse_videos(b.as_str()) {
            Some(vids) => RequestedVideos::Success(vids),
            None => RequestedVideos::Error,
        },
        None => RequestedVideos::Error,
    }
}

/// A fetch that resolves to `Success(l)` while the fetch is pending stores
/// exactly `l` and never touches the selection. The fetch result is always
/// the first event delivered — the page dispatches it once and clicks exist
/// only after a success render — so the pending state is the only one in
/// which it ever arrives.
pub proof fn lemma_pending_fetch_success_applies(app: App, l: Vec<Video>)
    requires
        app.videos is Loading,
    ensures
        app.step(AppMsg::SetVideos(RequestedVideos::Success(l))).videos
            == RequestedVideos::Success(l),
        app.step(AppMsg::SetVideos(RequestedVideos::Success(l))).selected_video
            == app.selected_video,
{
}

/// A fetch that resolves to `Error` while the fetch is pending stores the
/// error state and never touches the selection.
pub proof fn lemma_pending_fetch_error_applies(app: App)
    requires
        app.videos is Loading,
    ensures
        app.step(AppMsg::SetVideos(RequestedVideos::Error)).videos is Error,
        app.step(AppMsg::SetVideos(RequestedVideos::Error)).selected_video
            == app.selected_video,
{
}

/// A fetch result delivered after the state has already resolved is ignored:
/// the application is left exactly as it was.
pub proof fn lemma_resolved_ignores_fetch_result(app: App, res: RequestedVideos)
    requires
        !(app.videos is Loading),
    ensures
        app.step(AppMsg::SetVideos(res)) == app,
{
}

/// Selecting `r` and then `r2` leaves exactly `r2` selected: a later click
/// replaces the earlier selection rather than accumulating, and the fetch
/// state is never touched.
pub proof fn lemma_selection_replaces(app: App, r: Video, r2: Video)
    ensures
        app.step(AppMsg::SelectVideo(r)).selected_video == Some(r),
        app.step(AppMsg::SelectVideo(r)).videos == app.videos,
        app.step(AppMsg::SelectVideo(r)).step(AppMsg::SelectVideo(r2)).selected_video
            == Some(r2),
        app.step(AppMsg::SelectVideo(r)).step(AppMsg::SelectVideo(r2)).videos == app.videos,
{
}

} // verus!
