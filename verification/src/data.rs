//! Plain data carried through the coordination layer: the shape of one
//! catalog search response and the user-adjustable settings.

use vstd::prelude::*;

verus! {

/// One thumbnail reference attached to a search result.
#[derive(Debug, Clone)]
pub struct ThumbnailData {
    pub url: String,
    pub width: Option<u32>,
    pub height: Option<u32>,
}

/// The thumbnail variants a result may carry; each is optional.
#[derive(Debug, Clone)]
pub struct Thumbnails {
    pub default: Option<ThumbnailData>,
    pub medium: Option<ThumbnailData>,
    pub high: Option<ThumbnailData>,
}

/// The identity of one search result.  A missing video id is a valid,
/// reportable state, not an error.
#[derive(Debug, Clone)]
pub struct Id {
    pub kind: String,
    pub video_id: Option<String>,
    pub channel_id: Option<String>,
    pub playlist_id: Option<String>,
}

/// Descriptive fields of one search result.
#[derive(Debug, Clone)]
pub struct Snippet {
    pub published_at: String,
    pub channel_id: String,
    pub title: String,
    pub description: String,
    pub thumbnails: Thumbnails,
    pub channel_title: String,
    pub live_broadcast_content: String,
}

/// One item of a result set, immutable once received.
#[derive(Debug, Clone)]
pub struct SearchItem {
    pub kind: String,
    pub etag: String,
    pub id: Id,
    pub snippet: Snippet,
}

/// Paging counters reported with a search response.
#[derive(Debug, Clone)]
pub struct PageInfo {
    pub total_results: u64,
    pub results_per_page: u64,
}

/// One search's result set.  A new response replaces the previous one
/// wholesale; items are addressed by their position in `items`.
#[derive(Debug, Clone)]
pub struct SearchResponse {
    pub kind: String,
    pub etag: String,
    pub next_page_token: String,
    pub region_code: String,
    pub page_info: Option<PageInfo>,
    pub items: Vec<SearchItem>,
}

impl SearchResponse {
    /// An empty result set, the state before any search has completed.
    pub fn empty() -> (r: SearchResponse)
        ensures
            r.items@.len() == 0,
            r.page_info is None,
            r.kind@ == Seq::<char>::empty(),
            r.etag@ == Seq::<char>::empty(),
            r.next_page_token@ == Seq::<char>::empty(),
            r.region_code@ == Seq::<char>::empty(),
    {
        SearchResponse {
            kind: String::new(),
            etag: String::new(),
            next_page_token: String::new(),
            region_code: String::new(),
            page_info: None,
            items: Vec::new(),
        }
    }
}

/// User-adjustable settings kept across runs.
#[derive(Debug)]
pub struct SettingsState {
    pub max_results: i8,
    pub first_run: bool,
    pub download_path: String,
}

impl SettingsState {
    /// The settings used until the user changes them.
    pub fn default() -> (s: SettingsState)
        ensures
            s.max_results == 8,
            s.first_run,
            s.download_path@ == "~/Downloads"@,
    {
        SettingsState {
            max_results: 8,
            first_run: true,
            download_path: "~/Downloads".to_owned(),
        }
    }
}

} // verus!
