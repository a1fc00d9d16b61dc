//! The image-board provider: its search request, the shape of its response,
//! and its download (a direct fetch, no accounting).

use vstd::prelude::*;
use vstd::string::*;
use crate::paths::{extension_of, extension_spec, join_path, joined};
use crate::source::{
    get_request, param, plain_get, params_view, ActionView, DownloadAction, DownloadEvent,
    DownloadPhase, EventView, HttpRequest, Param, RequestView, SearchOptions, WallpaperInfo,
    WallpaperSource,
};
use crate::text::{chars_of, push_str, split_chars, split_on};

verus! {

/// The search response: the matching wallpapers, in the provider's order.
pub struct SearchResponse {
    pub data: Vec<Wallpaper>,
}

/// One wallpaper of a search response.
pub struct Wallpaper {
    /// The wallpaper's id (such as `94x38z`).
    pub id: String,
    /// The direct URL of the full image.
    pub path: String,
    /// The resolution, `WIDTHxHEIGHT`.
    pub resolution: String,
}

/// A client of the image-board API.
pub struct WallhavenClient {
    pub base_url: String,
    /// The optional API key, sent with each search.
    pub api_key: Option<String>,
}

/// The API's base URL.
pub open spec fn base_url_spec() -> Seq<char> {
    "https://wallhaven.cc/api/v1"@
}

/// The query of a search: the four filters, then the search term and the key
/// when present.
pub open spec fn search_params(o: SearchOptions, key: Option<String>) -> Seq<(Seq<char>, Seq<char>)> {
    let filters = seq![
        ("resolutions"@, o.resolution@),
        ("categories"@, o.categories@),
        ("purity"@, o.purity@),
        ("sorting"@, o.sorting@),
    ];
    let with_query = match o.query {
        Some(q) => filters.push(("q"@, q@)),
        None => filters,
    };
    match key {
        Some(k) => with_query.push(("apikey"@, k@)),
        None => with_query,
    }
}

/// The extension a downloaded image keeps: that of the last segment of its
/// URL, or `jpg` when that has none.
pub open spec fn image_extension(url: Seq<char>) -> Seq<char> {
    match extension_spec(split_on(url, '/').last()) {
        Some(e) => if e.len() > 0 { e } else { "jpg"@ },
        None => "jpg"@,
    }
}

/// `info` is the record made from `w`.
pub open spec fn is_record_of(info: WallpaperInfo, w: Wallpaper) -> bool {
    &&& info.id@ == w.id@
    &&& info.url@ == w.path@
    &&& info.resolution@ == w.resolution@
    &&& info.source@ == "wallhaven"@
    &&& info.extra is None
}

impl WallhavenClient {
    /// A client with an optional API key.
    pub fn new(api_key: Option<String>) -> (r: WallhavenClient)
        ensures
            r.base_url@ == base_url_spec(),
            r.api_key == api_key,
    {
        WallhavenClient { base_url: String::from_str("https://wallhaven.cc/api/v1"), api_key }
    }

    /// The records of a search response, in the response's order.
    pub fn records(response: &SearchResponse) -> (r: Vec<WallpaperInfo>)
        ensures
            r@.len() == response.data@.len(),
            forall|i: int| 0 <= i < r@.len() ==> is_record_of(#[trigger] r@[i], response.data@[i]),
    {
        let mut out: Vec<WallpaperInfo> = Vec::new();
        let mut i: usize = 0;
        while i < response.data.len()
            invariant
                i <= response.data@.len(),
                out@.len() == i,
                forall|j: int| 0 <= j < i ==> is_record_of(#[trigger] out@[j], response.data@[j]),
            decreases response.data@.len() - i,
        {
            let w = &response.data[i];
            out.push(WallpaperInfo {
                id: w.id.clone(),
                url: w.path.clone(),
                resolution: w.resolution.clone(),
                source: String::from_str("wallhaven"),
                extra: None,
            });
            i = i + 1;
        }
        out
    }
}

fn image_extension_of(url: &str) -> (r: String)
    ensures
        r@ == image_extension(url@),
{
    let cs = chars_of(url);
    let segs = split_chars(&cs, '/');
    proof {
        crate::text::lemma_split_on_nonempty(url@, '/');
    }
    let last = &segs[segs.len() - 1];
    assert(last@ == split_on(url@, '/').last());
    match extension_of(last.as_str()) {
        Some(e) => {
            if e.unicode_len() > 0 {
                e
            } else {
                String::from_str("jpg")
            }
        },
        None => String::from_str("jpg"),
    }
}

impl WallpaperSource for WallhavenClient {
    open spec fn search_request_spec(&self, options: SearchOptions) -> RequestView {
        RequestView {
            url: self.base_url@ + "/search"@,
            query: search_params(options, self.api_key),
            headers: Seq::empty(),
        }
    }

    /// `wallow-wallhaven-<id>.<ext>`.
    open spec fn file_name_spec(&self, info: WallpaperInfo) -> Seq<char> {
        "wallow-wallhaven-"@ + info.id@ + "."@ + image_extension(info.url@)
    }

    /// Begin fetches the image directly; its arrival saves it.
    open spec fn download_spec(
        &self,
        info: WallpaperInfo,
        dir: Seq<char>,
        phase: DownloadPhase,
        event: EventView,
    ) -> (DownloadPhase, ActionView) {
        match event {
            EventView::Begin => if phase == DownloadPhase::Start {
                (DownloadPhase::AwaitingImage, ActionView::FetchImage(plain_get(info.url@)))
            } else {
                (phase, ActionView::Reject)
            },
            EventView::ImageReceived => if phase == DownloadPhase::AwaitingImage {
                (DownloadPhase::Finished, ActionView::Save(joined(dir, self.file_name_spec(info))))
            } else {
                (phase, ActionView::Reject)
            },
            EventView::SignedUrl(_) => (phase, ActionView::Reject),
        }
    }

    fn search_request(&self, options: &SearchOptions) -> (r: HttpRequest) {
        let mut url = self.base_url.clone();
        push_str(&mut url, "/search");
        let mut query: Vec<Param> = Vec::new();
        query.push(param("resolutions", options.resolution.as_str()));
        query.push(param("categories", options.categories.as_str()));
        query.push(param("purity", options.purity.as_str()));
        query.push(param("sorting", options.sorting.as_str()));
        let ghost filters = params_view(query@);
        assert(filters =~= seq![
            ("resolutions"@, options.resolution@),
            ("categories"@, options.categories@),
            ("purity"@, options.purity@),
            ("sorting"@, options.sorting@),
        ]);
        if let Some(q) = &options.query {
            query.push(param("q", q.as_str()));
            assert(params_view(query@) =~= filters.push(("q"@, q@)));
        } else {
            assert(params_view(query@) =~= filters);
        }
        let ghost with_query = params_view(query@);
        if let Some(k) = &self.api_key {
            query.push(param("apikey", k.as_str()));
            assert(params_view(query@) =~= with_query.push(("apikey"@, k@)));
        }
        let r = HttpRequest { url, query, headers: Vec::new() };
        assert(r@.headers =~= Seq::empty());
        assert(r@.query =~= search_params(*options, self.api_key));
        r
    }

    fn download_file_name(&self, info: &WallpaperInfo) -> (r: String) {
        let mut name = String::from_str("wallow-wallhaven-");
        push_str(&mut name, info.id.as_str());
        push_str(&mut name, ".");
        let ext = image_extension_of(info.url.as_str());
        push_str(&mut name, ext.as_str());
        name
    }

    fn download_step(
        &self,
        info: &WallpaperInfo,
        dir: &str,
        phase: DownloadPhase,
        event: &DownloadEvent,
    ) -> (r: (DownloadPhase, DownloadAction)) {
        match event {
            DownloadEvent::Begin => {
                if phase == DownloadPhase::Start {
                    (DownloadPhase::AwaitingImage, DownloadAction::FetchImage(get_request(info.url.as_str())))
                } else {
                    (phase, DownloadAction::Reject)
                }
            },
            DownloadEvent::ImageReceived => {
                if phase == DownloadPhase::AwaitingImage {
                    let name = self.download_file_name(info);
                    (DownloadPhase::Finished, DownloadAction::Save(join_path(dir, name.as_str())))
                } else {
                    (phase, DownloadAction::Reject)
                }
            },
            DownloadEvent::SignedUrl(_) => (phase, DownloadAction::Reject),
        }
    }
}

} // verus!
