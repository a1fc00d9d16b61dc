//! The stock-photo provider: a mandatory search term, sort-order mapping,
//! image URLs sized to the requested resolution, and the download-accounting
//! request that must precede every image fetch.

use vstd::prelude::*;
use vstd::string::*;
use crate::paths::{join_path, joined};
use crate::source::{
    download_trace, get_request, param, plain_get, ActionView, DownloadAction,
    DownloadEvent, DownloadPhase, EventView, HttpRequest, Param, RequestView, SearchOptions,
    WallpaperInfo, WallpaperSource,
};
use crate::text::{chars_of, decimal, parse_u32, parse_u32_spec, push_decimal, push_str, str_eq, string_from_range};

verus! {

/// The search response: the matching photos, in the provider's order.
pub struct SearchResponse {
    pub results: Vec<Photo>,
}

/// One photo of a search response.
pub struct Photo {
    pub id: String,
    pub width: u32,
    pub height: u32,
    pub urls: PhotoUrls,
    pub links: PhotoLinks,
}

/// The image URLs of a photo.
pub struct PhotoUrls {
    /// The unprocessed image; sizing parameters may be appended.
    pub raw: String,
    /// The full-quality rendition.
    pub full: String,
}

/// The links of a photo.
pub struct PhotoLinks {
    /// The download-accounting endpoint, to be called before each download.
    pub download_location: String,
}

/// A client of the stock-photo API.
pub struct UnsplashClient {
    pub base_url: String,
    /// The access key, sent as a client-identifier header.
    pub access_key: String,
}

/// The API's base URL.
pub open spec fn base_url_spec() -> Seq<char> {
    "https://api.unsplash.com"@
}

/// The value of the authorization header for `key`.
pub open spec fn auth_value(key: Seq<char>) -> Seq<char> {
    "Client-ID "@ + key
}

/// The search term sent when the caller gives none: the API requires one.
pub open spec fn generic_query() -> Seq<char> {
    "wallpaper"@
}

/// The provider knows only "latest" and "relevant": the newest-first sortings
/// map to "latest", every other sorting to "relevant".
pub open spec fn order_by(sorting: Seq<char>) -> Seq<char> {
    if sorting == "latest"@ || sorting == "date_added"@ {
        "latest"@
    } else {
        "relevant"@
    }
}

/// The query of a search.
pub open spec fn search_params(o: SearchOptions) -> Seq<(Seq<char>, Seq<char>)> {
    seq![
        ("query"@, match o.query { Some(q) => q@, None => generic_query() }),
        ("per_page"@, "30"@),
        ("order_by"@, order_by(o.sorting@)),
        ("orientation"@, "landscape"@),
        ("content_filter"@, "low"@),
    ]
}

/// The width and height written `WxH`: the text before the first `x` and the
/// text after it, each read as a `u32`, 0 where that fails; (0, 0) without an `x`.
pub open spec fn resolution_of(s: Seq<char>) -> (u32, u32) {
    if exists|i: int| 0 <= i < s.len() && s[i] == 'x' {
        let i = choose|i: int| 0 <= i < s.len() && s[i] == 'x' && (forall|j: int| 0 <= j < i ==> s[j] != 'x');
        (
            match parse_u32_spec(s.subrange(0, i)) { Some(w) => w, None => 0 },
            match parse_u32_spec(s.subrange(i + 1, s.len() as int)) { Some(h) => h, None => 0 },
        )
    } else {
        (0, 0)
    }
}

/// The URL fetched for a photo: sized and cropped to the requested resolution
/// when both of its numbers are positive, the full image otherwise.
pub open spec fn sized_url(raw: Seq<char>, size: (u32, u32)) -> Seq<char> {
    if size.0 > 0 && size.1 > 0 {
        raw + "&w="@ + decimal(size.0 as nat) + "&h="@ + decimal(size.1 as nat) + "&fit=crop&cs=srgb&fm=jpg"@
    } else {
        raw + "&fm=jpg&q=85"@
    }
}

/// `info` is the record made from photo `p` for a search at `resolution`.
pub open spec fn is_record_of(info: WallpaperInfo, p: Photo, resolution: Seq<char>) -> bool {
    &&& info.id@ == p.id@
    &&& info.url@ == sized_url(p.urls.raw@, resolution_of(resolution))
    &&& info.resolution@ == decimal(p.width as nat) + "x"@ + decimal(p.height as nat)
    &&& info.source@ == "unsplash"@
    &&& info.extra matches Some(e) && e@ == p.links.download_location@
}

/// The accounting request for the download-accounting URL `location`.
pub open spec fn accounting_request(location: Seq<char>, key: Seq<char>) -> RequestView {
    RequestView {
        url: location,
        query: Seq::empty(),
        headers: seq![("Authorization"@, auth_value(key))],
    }
}

/// Parses a `WxH` resolution; see `resolution_of`.
pub fn parse_resolution(resolution: &str) -> (r: (u32, u32))
    ensures
        r == resolution_of(resolution@),
{
    let cs = chars_of(resolution);
    let n = cs.len();
    let mut i: usize = 0;
    while i < n && cs[i] != 'x'
        invariant
            i <= n,
            n == cs@.len(),
            cs@ == resolution@,
            forall|j: int| 0 <= j < i ==> cs@[j] != 'x',
        decreases n - i,
    {
        i = i + 1;
    }
    if i == n {
        return (0, 0);
    }
    let ghost s = resolution@;
    let ghost k = choose|k: int| 0 <= k < s.len() && s[k] == 'x' && (forall|j: int| 0 <= j < k ==> s[j] != 'x');
    assert(0 <= i < s.len() && s[i as int] == 'x' && (forall|j: int| 0 <= j < i ==> s[j] != 'x'));
    assert(k == i) by {
        if k < i {
            assert(s[k] != 'x');
        } else if k > i {
            assert(s[i as int] != 'x');
        }
    }
    let before = string_from_range(&cs, 0, i);
    let after = string_from_range(&cs, i + 1, n);
    let w = match parse_u32(before.as_str()) {
        Some(w) => w,
        None => 0,
    };
    let h = match parse_u32(after.as_str()) {
        Some(h) => h,
        None => 0,
    };
    (w, h)
}

/// Appends the URL fetched for a photo.
fn sized_url_exec(raw: &str, size: (u32, u32)) -> (r: String)
    ensures
        r@ == sized_url(raw@, size),
{
    let mut out = String::from_str(raw);
    if size.0 > 0 && size.1 > 0 {
        push_str(&mut out, "&w=");
        push_decimal(&mut out, size.0 as u64);
        push_str(&mut out, "&h=");
        push_decimal(&mut out, size.1 as u64);
        push_str(&mut out, "&fit=crop&cs=srgb&fm=jpg");
    } else {
        push_str(&mut out, "&fm=jpg&q=85");
    }
    out
}

impl UnsplashClient {
    /// A client with its access key.
    pub fn new(access_key: String) -> (r: UnsplashClient)
        ensures
            r.base_url@ == base_url_spec(),
            r.access_key == access_key,
    {
        UnsplashClient { base_url: String::from_str("https://api.unsplash.com"), access_key }
    }

    /// The value of the authorization header.
    pub fn auth_header(&self) -> (r: String)
        ensures
            r@ == auth_value(self.access_key@),
    {
        let mut out = String::from_str("Client-ID ");
        push_str(&mut out, self.access_key.as_str());
        out
    }

    /// The records of a search response for a search at `resolution`, in the
    /// response's order.
    pub fn records(response: &SearchResponse, resolution: &str) -> (r: Vec<WallpaperInfo>)
        ensures
            r@.len() == response.results@.len(),
            forall|i: int| 0 <= i < r@.len() ==> is_record_of(#[trigger] r@[i], response.results@[i], resolution@),
    {
        let size = parse_resolution(resolution);
        let mut out: Vec<WallpaperInfo> = Vec::new();
        let mut i: usize = 0;
        while i < response.results.len()
            invariant
                i <= response.results@.len(),
                out@.len() == i,
                size == resolution_of(resolution@),
                forall|j: int| 0 <= j < i ==> is_record_of(#[trigger] out@[j], response.results@[j], resolution@),
            decreases response.results@.len() - i,
        {
            let p = &response.results[i];
            let mut res = String::new();
            push_decimal(&mut res, p.width as u64);
            push_str(&mut res, "x");
            push_decimal(&mut res, p.height as u64);
            assert(res@ =~= decimal(p.width as nat) + "x"@ + decimal(p.height as nat));
            out.push(WallpaperInfo {
                id: p.id.clone(),
                url: sized_url_exec(p.urls.raw.as_str(), size),
                resolution: res,
                source: String::from_str("unsplash"),
                extra: Some(p.links.download_location.clone()),
            });
            i = i + 1;
        }
        out
    }
}

fn order_by_exec(sorting: &str) -> (r: &'static str)
    ensures
        r@ == order_by(sorting@),
{
    if str_eq(sorting, "latest") || str_eq(sorting, "date_added") {
        "latest"
    } else {
        "relevant"
    }
}

impl WallpaperSource for UnsplashClient {
    open spec fn search_request_spec(&self, options: SearchOptions) -> RequestView {
        RequestView {
            url: self.base_url@ + "/search/photos"@,
            query: search_params(options),
            headers: seq![("Authorization"@, auth_value(self.access_key@))],
        }
    }

    /// `wallow-unsplash-<id>.jpg`.
    open spec fn file_name_spec(&self, info: WallpaperInfo) -> Seq<char> {
        "wallow-unsplash-"@ + info.id@ + ".jpg"@
    }

    /// With an accounting URL, Begin sends the accounting request and only its
    /// reply's signed URL is fetched; without one, Begin fetches the record's
    /// URL directly.
    open spec fn download_spec(
        &self,
        info: WallpaperInfo,
        dir: Seq<char>,
        phase: DownloadPhase,
        event: EventView,
    ) -> (DownloadPhase, ActionView) {
        match event {
            EventView::Begin => if phase == DownloadPhase::Start {
                match info.extra {
                    Some(location) => (
                        DownloadPhase::AwaitingSignedUrl,
                        ActionView::Account(accounting_request(location@, self.access_key@)),
                    ),
                    None => (DownloadPhase::AwaitingImage, ActionView::FetchImage(plain_get(info.url@))),
                }
            } else {
                (phase, ActionView::Reject)
            },
            EventView::SignedUrl(u) => if phase == DownloadPhase::AwaitingSignedUrl {
                (DownloadPhase::AwaitingImage, ActionView::FetchImage(plain_get(u)))
            } else {
                (phase, ActionView::Reject)
            },
            EventView::ImageReceived => if phase == DownloadPhase::AwaitingImage {
                (DownloadPhase::Finished, ActionView::Save(joined(dir, self.file_name_spec(info))))
            } else {
                (phase, ActionView::Reject)
            },
        }
    }

    fn search_request(&self, options: &SearchOptions) -> (r: HttpRequest) {
        let mut url = self.base_url.clone();
        push_str(&mut url, "/search/photos");
        let mut query: Vec<Param> = Vec::new();
        match &options.query {
            Some(q) => query.push(param("query", q.as_str())),
            None => query.push(param("query", "wallpaper")),
        }
        query.push(param("per_page", "30"));
        query.push(param("order_by", order_by_exec(options.sorting.as_str())));
        query.push(param("orientation", "landscape"));
        query.push(param("content_filter", "low"));
        let mut headers: Vec<Param> = Vec::new();
        let auth = self.auth_header();
        headers.push(param("Authorization", auth.as_str()));
        let r = HttpRequest { url, query, headers };
        assert(r@.query =~= search_params(*options));
        assert(r@.headers =~= seq![("Authorization"@, auth_value(self.access_key@))]);
        r
    }

    fn download_file_name(&self, info: &WallpaperInfo) -> (r: String) {
        let mut name = String::from_str("wallow-unsplash-");
        push_str(&mut name, info.id.as_str());
        push_str(&mut name, ".jpg");
        name
    }

    fn download_step(
        &self,
        info: &WallpaperInfo,
        dir: &str,
        phase: DownloadPhase,
        event: &DownloadEvent,
    ) -> (r: (DownloadPhase, DownloadAction)) {
        match event {
            DownloadEvent::Begin => {
                if phase == DownloadPhase::Start {
                    match &info.extra {
                        Some(location) => {
                            let mut req = get_request(location.as_str());
                            let auth = self.auth_header();
                            req.headers.push(param("Authorization", auth.as_str()));
                            assert(req@.headers =~= seq![("Authorization"@, auth_value(self.access_key@))]);
                            (DownloadPhase::AwaitingSignedUrl, DownloadAction::Account(req))
                        },
                        None => (DownloadPhase::AwaitingImage, DownloadAction::FetchImage(get_request(info.url.as_str()))),
                    }
                } else {
                    (phase, DownloadAction::Reject)
                }
            },
            DownloadEvent::SignedUrl(u) => {
                if phase == DownloadPhase::AwaitingSignedUrl {
                    (DownloadPhase::AwaitingImage, DownloadAction::FetchImage(get_request(u.as_str())))
                } else {
                    (phase, DownloadAction::Reject)
                }
            },
            DownloadEvent::ImageReceived => {
                if phase == DownloadPhase::AwaitingImage {
                    let name = self.download_file_name(info);
                    (DownloadPhase::Finished, DownloadAction::Save(join_path(dir, name.as_str())))
                } else {
                    (phase, DownloadAction::Reject)
                }
            },
        }
    }
}

/// Downloading a record that carries an accounting URL `u`, from the start and
/// whatever events arrive, sends the accounting request to `u` before any
/// image fetch: every image fetch in the actions is preceded by it.
pub proof fn lemma_accounting_precedes_fetch(
    client: UnsplashClient,
    info: WallpaperInfo,
    dir: Seq<char>,
    events: Seq<EventView>,
)
    requires
        info.extra is Some,
    ensures
        ({
            let actions = download_trace(client, info, dir, DownloadPhase::Start, events);
            forall|j: int| 0 <= j < actions.len() && #[trigger] actions[j] is FetchImage ==> exists|i: int|
                0 <= i < j && actions[i] == ActionView::Account(
                    accounting_request(info.extra->0@, client.access_key@),
                )
        }),
{
    lemma_accounting_precedes_fetch_from(client, info, dir, DownloadPhase::Start, events);
}

proof fn lemma_accounting_precedes_fetch_from(
    client: UnsplashClient,
    info: WallpaperInfo,
    dir: Seq<char>,
    phase: DownloadPhase,
    events: Seq<EventView>,
)
    requires
        info.extra is Some,
    ensures
        ({
            let actions = download_trace(client, info, dir, phase, events);
            forall|j: int| 0 <= j < actions.len() && #[trigger] actions[j] is FetchImage ==>
                phase != DownloadPhase::Start || exists|i: int| 0 <= i < j && actions[i] == ActionView::Account(
                    accounting_request(info.extra->0@, client.access_key@),
                )
        }),
    decreases events.len(),
{
    if events.len() > 0 {
        let (next, action) = client.download_spec(info, dir, phase, events[0]);
        let rest = download_trace(client, info, dir, next, events.drop_first());
        lemma_accounting_precedes_fetch_from(client, info, dir, next, events.drop_first());
        let actions = download_trace(client, info, dir, phase, events);
        assert(actions == seq![action] + rest);
        let acc = ActionView::Account(accounting_request(info.extra->0@, client.access_key@));
        assert forall|j: int| 0 <= j < actions.len() && #[trigger] actions[j] is FetchImage implies
            phase != DownloadPhase::Start || exists|i: int| 0 <= i < j && actions[i] == acc by {
            if phase == DownloadPhase::Start {
                if j == 0 {
                    assert(!(action is FetchImage));
                } else {
                    assert(actions[j] == rest[j - 1]);
                    if next == DownloadPhase::Start {
                        let i0 = choose|i: int| 0 <= i < j - 1 && rest[i] == acc;
                        assert(actions[i0 + 1] == acc);
                    } else {
                        assert(actions[0] == acc);
                    }
                }
            }
        }
    }
}

/// A record without an accounting URL is fetched without any accounting
/// request being made up.
pub proof fn lemma_no_accounting_without_location(
    client: UnsplashClient,
    info: WallpaperInfo,
    dir: Seq<char>,
    phase: DownloadPhase,
    events: Seq<EventView>,
)
    requires
        info.extra is None,
    ensures
        ({
            let actions = download_trace(client, info, dir, phase, events);
            forall|j: int| 0 <= j < actions.len() ==> !(#[trigger] actions[j] is Account)
        }),
    decreases events.len(),
{
    if events.len() > 0 {
        let (next, action) = client.download_spec(info, dir, phase, events[0]);
        lemma_no_accounting_without_location(client, info, dir, next, events.drop_first());
        let rest = download_trace(client, info, dir, next, events.drop_first());
        let actions = download_trace(client, info, dir, phase, events);
        assert(actions == seq![action] + rest);
        assert forall|j: int| 0 <= j < actions.len() implies !(#[trigger] actions[j] is Account) by {
            if j > 0 {
                assert(actions[j] == rest[j - 1]);
            }
        }
    }
}

} // verus!
