//! The provider abstraction: the uniform record and search parameters, the
//! HTTP requests that a provider client asks to have sent, the download
//! protocol, and the choice of provider.

pub mod unsplash;
pub mod wallhaven;

use vstd::prelude::*;
use vstd::string::*;
use crate::config::{opt_view, resolve, resolve_setting};
use crate::error::EngineError;
use crate::text::str_eq;

use self::unsplash::UnsplashClient;
use self::wallhaven::WallhavenClient;

verus! {

/// A wallpaper as every provider describes it.
pub struct WallpaperInfo {
    /// The wallpaper's id at its provider.
    pub id: String,
    /// Where the image itself can be fetched.
    pub url: String,
    /// The image's resolution, `WIDTHxHEIGHT`.
    pub resolution: String,
    /// The provider's name.
    pub source: String,
    /// What the provider's download step alone needs (a download-accounting URL).
    pub extra: Option<String>,
}

impl WallpaperInfo {
    /// A copy of this record.
    pub fn duplicate(&self) -> (r: WallpaperInfo)
        ensures
            r == *self,
    {
        let extra = match &self.extra {
            Some(e) => Some(e.clone()),
            None => None,
        };
        WallpaperInfo {
            id: self.id.clone(),
            url: self.url.clone(),
            resolution: self.resolution.clone(),
            source: self.source.clone(),
            extra,
        }
    }
}

/// Fully resolved search parameters, in the provider's own encodings.
pub struct SearchOptions {
    pub query: Option<String>,
    pub resolution: String,
    pub categories: String,
    pub purity: String,
    pub sorting: String,
}

/// One name/value pair of a query string or of the request headers.
pub struct Param {
    pub name: String,
    pub value: String,
}

impl View for Param {
    type V = (Seq<char>, Seq<char>);

    open spec fn view(&self) -> (Seq<char>, Seq<char>) {
        (self.name@, self.value@)
    }
}

/// A GET request for the caller to send.
pub struct HttpRequest {
    pub url: String,
    pub query: Vec<Param>,
    pub headers: Vec<Param>,
}

/// What a request holds.
pub struct RequestView {
    pub url: Seq<char>,
    pub query: Seq<(Seq<char>, Seq<char>)>,
    pub headers: Seq<(Seq<char>, Seq<char>)>,
}

/// The views of a list of pairs.
pub open spec fn params_view(ps: Seq<Param>) -> Seq<(Seq<char>, Seq<char>)> {
    ps.map_values(|p: Param| p@)
}

impl View for HttpRequest {
    type V = RequestView;

    open spec fn view(&self) -> RequestView {
        RequestView { url: self.url@, query: params_view(self.query@), headers: params_view(self.headers@) }
    }
}

/// A request to `url` with no query and no headers.
pub open spec fn plain_get(url: Seq<char>) -> RequestView {
    RequestView { url, query: Seq::empty(), headers: Seq::empty() }
}

/// A name/value pair.
pub fn param(name: &str, value: &str) -> (r: Param)
    ensures
        r@ == (name@, value@),
{
    Param { name: String::from_str(name), value: String::from_str(value) }
}

/// A request to `url` with no query and no headers.
pub fn get_request(url: &str) -> (r: HttpRequest)
    ensures
        r@ == plain_get(url@),
{
    let r = HttpRequest { url: String::from_str(url), query: Vec::new(), headers: Vec::new() };
    assert(r@.query =~= Seq::empty());
    assert(r@.headers =~= Seq::empty());
    r
}

/// Where a download stands.
#[derive(PartialEq, Eq, Structural, Clone, Copy, Debug)]
pub enum DownloadPhase {
    /// Nothing has been requested yet.
    Start,
    /// The accounting request was sent; its reply carries the signed image URL.
    AwaitingSignedUrl,
    /// The image request was sent.
    AwaitingImage,
    /// The image was fetched and the file can be written.
    Finished,
}

/// What the caller reports back to a download in progress.
pub enum DownloadEvent {
    /// The download is to begin.
    Begin,
    /// The accounting reply arrived with this signed image URL.
    SignedUrl(String),
    /// The image bytes arrived.
    ImageReceived,
}

/// What a download event holds.
pub enum EventView {
    Begin,
    SignedUrl(Seq<char>),
    ImageReceived,
}

impl View for DownloadEvent {
    type V = EventView;

    open spec fn view(&self) -> EventView {
        match self {
            DownloadEvent::Begin => EventView::Begin,
            DownloadEvent::SignedUrl(u) => EventView::SignedUrl(u@),
            DownloadEvent::ImageReceived => EventView::ImageReceived,
        }
    }
}

/// What a download asks the caller to do next.
pub enum DownloadAction {
    /// Send the provider's download-accounting request; its reply names the image URL.
    Account(HttpRequest),
    /// Fetch the image bytes.
    FetchImage(HttpRequest),
    /// Write the fetched bytes to this path; the download is then complete.
    Save(String),
    /// The event does not fit the phase; nothing is to be done.
    Reject,
}

/// What a download action holds.
pub enum ActionView {
    Account(RequestView),
    FetchImage(RequestView),
    Save(Seq<char>),
    Reject,
}

impl View for DownloadAction {
    type V = ActionView;

    open spec fn view(&self) -> ActionView {
        match self {
            DownloadAction::Account(r) => ActionView::Account(r@),
            DownloadAction::FetchImage(r) => ActionView::FetchImage(r@),
            DownloadAction::Save(p) => ActionView::Save(p@),
            DownloadAction::Reject => ActionView::Reject,
        }
    }
}

/// The contract every provider client meets: it says which request searches,
/// how a record's file is named, and how a download proceeds.
pub trait WallpaperSource {
    /// The request that searches with `options`.
    spec fn search_request_spec(&self, options: SearchOptions) -> RequestView;

    /// The file name under which `info` is saved.
    spec fn file_name_spec(&self, info: WallpaperInfo) -> Seq<char>;

    /// The next phase and action of downloading `info` into `dir`.
    spec fn download_spec(
        &self,
        info: WallpaperInfo,
        dir: Seq<char>,
        phase: DownloadPhase,
        event: EventView,
    ) -> (DownloadPhase, ActionView);

    /// The request that searches with `options`.
    fn search_request(&self, options: &SearchOptions) -> (r: HttpRequest)
        ensures
            r@ == self.search_request_spec(*options),
    ;

    /// The file name under which `info` is saved.
    fn download_file_name(&self, info: &WallpaperInfo) -> (r: String)
        ensures
            r@ == self.file_name_spec(*info),
    ;

    /// Advances a download of `info` into `dir` by one event.
    fn download_step(
        &self,
        info: &WallpaperInfo,
        dir: &str,
        phase: DownloadPhase,
        event: &DownloadEvent,
    ) -> (r: (DownloadPhase, DownloadAction))
        ensures
            (r.0, r.1@) == self.download_spec(*info, dir@, phase, event@),
    ;
}

/// The actions a download produces for a run of events, from `phase` on.
pub open spec fn download_trace<S: WallpaperSource>(
    s: S,
    info: WallpaperInfo,
    dir: Seq<char>,
    phase: DownloadPhase,
    events: Seq<EventView>,
) -> Seq<ActionView>
    decreases events.len(),
{
    if events.len() == 0 {
        Seq::empty()
    } else {
        let (next, action) = s.download_spec(info, dir, phase, events[0]);
        seq![action] + download_trace(s, info, dir, next, events.drop_first())
    }
}

/// The providers the engine knows.
#[derive(PartialEq, Eq, Structural, Clone, Copy, Debug)]
pub enum ProviderIdentity {
    Wallhaven,
    Unsplash,
}

/// The provider used when neither the call nor the configuration names one.
pub open spec fn builtin_provider_name() -> Seq<char> {
    "wallhaven"@
}

/// The provider a name stands for, if any.
pub open spec fn identity_named(name: Seq<char>) -> Option<ProviderIdentity> {
    if name == "wallhaven"@ {
        Some(ProviderIdentity::Wallhaven)
    } else if name == "unsplash"@ {
        Some(ProviderIdentity::Unsplash)
    } else {
        None
    }
}

/// The provider that a call selects: the explicit name, else the configured
/// one, else the built-in default; a name that is not known is an error.
pub fn resolve_provider(explicit: Option<&str>, configured: Option<&str>) -> (r: Result<ProviderIdentity, EngineError>)
    ensures
        ({
            let name = resolve(opt_view(explicit), opt_view(configured), builtin_provider_name());
            match identity_named(name) {
                Some(id) => r == Ok::<ProviderIdentity, EngineError>(id),
                None => r matches Err(EngineError::UnknownProvider(n)) && n@ == name,
            }
        }),
{
    let name = resolve_setting(explicit, configured, "wallhaven");
    if str_eq(name.as_str(), "wallhaven") {
        Ok(ProviderIdentity::Wallhaven)
    } else if str_eq(name.as_str(), "unsplash") {
        Ok(ProviderIdentity::Unsplash)
    } else {
        Err(EngineError::UnknownProvider(name))
    }
}

/// A provider client, selected by identity.
pub enum Provider {
    Wallhaven(WallhavenClient),
    Unsplash(UnsplashClient),
}

impl Provider {
    /// The client for `identity`, with its credential. The image-board provider
    /// takes an optional key; the stock-photo provider requires one, and its
    /// absence is reported before any request is made.
    pub fn connect(
        identity: ProviderIdentity,
        wallhaven_key: Option<String>,
        unsplash_key: Option<String>,
    ) -> (r: Result<Provider, EngineError>)
        ensures
            identity == ProviderIdentity::Wallhaven ==> (r matches Ok(Provider::Wallhaven(c))
                && c.api_key == wallhaven_key && c.base_url@ == wallhaven::base_url_spec()),
            identity == ProviderIdentity::Unsplash ==> match unsplash_key {
                Some(k) => (r matches Ok(Provider::Unsplash(c)) && c.access_key@ == k@
                    && c.base_url@ == unsplash::base_url_spec()),
                None => (r matches Err(EngineError::CredentialMissing(p)) && p@ == "unsplash"@),
            },
    {
        match identity {
            ProviderIdentity::Wallhaven => Ok(Provider::Wallhaven(WallhavenClient::new(wallhaven_key))),
            ProviderIdentity::Unsplash => match unsplash_key {
                Some(k) => Ok(Provider::Unsplash(UnsplashClient::new(k))),
                None => Err(EngineError::CredentialMissing(String::from_str("unsplash"))),
            },
        }
    }
}

impl WallpaperSource for Provider {
    open spec fn search_request_spec(&self, options: SearchOptions) -> RequestView {
        match self {
            Provider::Wallhaven(c) => c.search_request_spec(options),
            Provider::Unsplash(c) => c.search_request_spec(options),
        }
    }

    open spec fn file_name_spec(&self, info: WallpaperInfo) -> Seq<char> {
        match self {
            Provider::Wallhaven(c) => c.file_name_spec(info),
            Provider::Unsplash(c) => c.file_name_spec(info),
        }
    }

    open spec fn download_spec(
        &self,
        info: WallpaperInfo,
        dir: Seq<char>,
        phase: DownloadPhase,
        event: EventView,
    ) -> (DownloadPhase, ActionView) {
        match self {
            Provider::Wallhaven(c) => c.download_spec(info, dir, phase, event),
            Provider::Unsplash(c) => c.download_spec(info, dir, phase, event),
        }
    }

    fn search_request(&self, options: &SearchOptions) -> (r: HttpRequest) {
        match self {
            Provider::Wallhaven(c) => c.search_request(options),
            Provider::Unsplash(c) => c.search_request(options),
        }
    }

    fn download_file_name(&self, info: &WallpaperInfo) -> (r: String) {
        match self {
            Provider::Wallhaven(c) => c.download_file_name(info),
            Provider::Unsplash(c) => c.download_file_name(info),
        }
    }

    fn download_step(
        &self,
        info: &WallpaperInfo,
        dir: &str,
        phase: DownloadPhase,
        event: &DownloadEvent,
    ) -> (r: (DownloadPhase, DownloadAction)) {
        match self {
            Provider::Wallhaven(c) => c.download_step(info, dir, phase, event),
            Provider::Unsplash(c) => c.download_step(info, dir, phase, event),
        }
    }
}

} // verus!
