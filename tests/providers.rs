use wallow::error::EngineError;
use wallow::source::unsplash::{Photo, PhotoLinks, PhotoUrls, SearchResponse as PhotoResponse, UnsplashClient};
use wallow::source::wallhaven::{SearchResponse, Wallpaper, WallhavenClient};
use wallow::source::{
    resolve_provider, DownloadAction, DownloadEvent, DownloadPhase, HttpRequest, Provider,
    ProviderIdentity, SearchOptions, WallpaperInfo, WallpaperSource,
};

fn pairs(r: &HttpRequest) -> Vec<(String, String)> {
    r.query.iter().map(|p| (p.name.clone(), p.value.clone())).collect()
}

fn options(query: Option<&str>, sorting: &str) -> SearchOptions {
    SearchOptions {
        query: query.map(|q| q.to_string()),
        resolution: "3840x2160".to_string(),
        categories: "111".to_string(),
        purity: "100".to_string(),
        sorting: sorting.to_string(),
    }
}

fn info(extra: Option<&str>) -> WallpaperInfo {
    WallpaperInfo {
        id: "abc".to_string(),
        url: "https://images.example/raw?ixid=1&fm=jpg&q=85".to_string(),
        resolution: "6000x4000".to_string(),
        source: "unsplash".to_string(),
        extra: extra.map(|e| e.to_string()),
    }
}

#[test]
fn wallhaven_search_request_lists_filters_then_query_and_key() {
    let c = WallhavenClient::new(Some("k1".to_string()));
    let r = c.search_request(&options(Some("nature"), "random"));
    assert_eq!(r.url, "https://wallhaven.cc/api/v1/search");
    let expect: Vec<(String, String)> = vec![
        ("resolutions", "3840x2160"),
        ("categories", "111"),
        ("purity", "100"),
        ("sorting", "random"),
        ("q", "nature"),
        ("apikey", "k1"),
    ]
    .into_iter()
    .map(|(a, b)| (a.to_string(), b.to_string()))
    .collect();
    assert_eq!(pairs(&r), expect);
    assert!(r.headers.is_empty());
}

#[test]
fn wallhaven_search_without_query_or_key() {
    let c = WallhavenClient::new(None);
    let r = c.search_request(&options(None, "toplist"));
    assert_eq!(r.query.len(), 4);
    assert_eq!(r.query[3].value, "toplist");
}

#[test]
fn unsplash_search_substitutes_generic_term_and_maps_sorting() {
    let c = UnsplashClient::new("KEY".to_string());
    let r = c.search_request(&options(None, "random"));
    assert_eq!(r.url, "https://api.unsplash.com/search/photos");
    let p = pairs(&r);
    assert_eq!(p[0], ("query".to_string(), "wallpaper".to_string()));
    assert_eq!(p[1], ("per_page".to_string(), "30".to_string()));
    assert_eq!(p[2], ("order_by".to_string(), "relevant".to_string()));
    assert_eq!(p[3], ("orientation".to_string(), "landscape".to_string()));
    assert_eq!(p[4], ("content_filter".to_string(), "low".to_string()));
    assert_eq!(r.headers[0].name, "Authorization");
    assert_eq!(r.headers[0].value, "Client-ID KEY");
    let latest = c.search_request(&options(Some("sea"), "date_added"));
    assert_eq!(latest.query[0].value, "sea");
    assert_eq!(latest.query[2].value, "latest");
}

#[test]
fn wallhaven_records_keep_order_and_fields() {
    let resp = SearchResponse {
        data: vec![
            Wallpaper { id: "94x38z".into(), path: "https://w.wallhaven.cc/full/94/wallhaven-94x38z.png".into(), resolution: "3840x2160".into() },
            Wallpaper { id: "b2".into(), path: "https://w.wallhaven.cc/full/b2/wallhaven-b2.jpg".into(), resolution: "1920x1080".into() },
        ],
    };
    let rs = WallhavenClient::records(&resp);
    assert_eq!(rs.len(), 2);
    assert_eq!(rs[0].id, "94x38z");
    assert_eq!(rs[0].url, "https://w.wallhaven.cc/full/94/wallhaven-94x38z.png");
    assert_eq!(rs[0].source, "wallhaven");
    assert!(rs[0].extra.is_none());
    assert_eq!(rs[1].resolution, "1920x1080");
    let c = WallhavenClient::new(None);
    assert_eq!(c.download_file_name(&rs[0]), "wallow-wallhaven-94x38z.png");
}

#[test]
fn unsplash_records_size_the_url_and_keep_accounting_location() {
    let resp = PhotoResponse {
        results: vec![Photo {
            id: "LBI7cgq3pbM".into(),
            width: 6000,
            height: 4000,
            urls: PhotoUrls { raw: "https://images.unsplash.com/photo-1?ixid=x".into(), full: "f".into() },
            links: PhotoLinks { download_location: "https://api.unsplash.com/photos/LBI7cgq3pbM/download".into() },
        }],
    };
    let rs = UnsplashClient::records(&resp, "3840x2160");
    assert_eq!(rs[0].url, "https://images.unsplash.com/photo-1?ixid=x&w=3840&h=2160&fit=crop&cs=srgb&fm=jpg");
    assert_eq!(rs[0].resolution, "6000x4000");
    assert_eq!(rs[0].source, "unsplash");
    assert_eq!(rs[0].extra.as_deref(), Some("https://api.unsplash.com/photos/LBI7cgq3pbM/download"));
    let plain = UnsplashClient::records(&resp, "large");
    assert_eq!(plain[0].url, "https://images.unsplash.com/photo-1?ixid=x&fm=jpg&q=85");
}

#[test]
fn accounting_request_comes_before_image_fetch() {
    let c = UnsplashClient::new("KEY".to_string());
    let w = info(Some("https://api.unsplash.com/photos/abc/download"));
    let (p1, a1) = c.download_step(&w, "/pics", DownloadPhase::Start, &DownloadEvent::Begin);
    assert_eq!(p1, DownloadPhase::AwaitingSignedUrl);
    match a1 {
        DownloadAction::Account(r) => {
            assert_eq!(r.url, "https://api.unsplash.com/photos/abc/download");
            assert_eq!(r.headers[0].value, "Client-ID KEY");
        }
        _ => panic!("expected the accounting request first"),
    }
    let (p2, a2) = c.download_step(&w, "/pics", p1, &DownloadEvent::SignedUrl("https://signed/img".to_string()));
    assert_eq!(p2, DownloadPhase::AwaitingImage);
    match a2 {
        DownloadAction::FetchImage(r) => assert_eq!(r.url, "https://signed/img"),
        _ => panic!("expected the image fetch"),
    }
    let (p3, a3) = c.download_step(&w, "/pics", p2, &DownloadEvent::ImageReceived);
    assert_eq!(p3, DownloadPhase::Finished);
    match a3 {
        DownloadAction::Save(p) => assert_eq!(p, "/pics/wallow-unsplash-abc.jpg"),
        _ => panic!("expected the save"),
    }
}

#[test]
fn image_is_not_fetched_before_accounting() {
    let c = UnsplashClient::new("KEY".to_string());
    let w = info(Some("https://loc"));
    let (p, a) = c.download_step(&w, "/pics", DownloadPhase::Start, &DownloadEvent::SignedUrl("https://x".into()));
    assert_eq!(p, DownloadPhase::Start);
    assert!(matches!(a, DownloadAction::Reject));
}

#[test]
fn missing_accounting_location_fetches_directly() {
    let c = UnsplashClient::new("KEY".to_string());
    let w = info(None);
    let (p, a) = c.download_step(&w, "/pics", DownloadPhase::Start, &DownloadEvent::Begin);
    assert_eq!(p, DownloadPhase::AwaitingImage);
    match a {
        DownloadAction::FetchImage(r) => {
            assert_eq!(r.url, w.url);
            assert!(r.headers.is_empty());
        }
        _ => panic!("expected a direct fetch"),
    }
}

#[test]
fn wallhaven_download_is_direct() {
    let c = WallhavenClient::new(None);
    let mut w = info(None);
    w.url = "https://w.wallhaven.cc/full/94/wallhaven-94x38z.jpg".to_string();
    w.id = "94x38z".to_string();
    let (p, a) = c.download_step(&w, "/pics", DownloadPhase::Start, &DownloadEvent::Begin);
    assert_eq!(p, DownloadPhase::AwaitingImage);
    assert!(matches!(a, DownloadAction::FetchImage(_)));
    let (_, s) = c.download_step(&w, "/pics", p, &DownloadEvent::ImageReceived);
    match s {
        DownloadAction::Save(path) => assert_eq!(path, "/pics/wallow-wallhaven-94x38z.jpg"),
        _ => panic!("expected the save"),
    }
}

#[test]
fn provider_resolution_priority_and_unknown_names() {
    assert_eq!(resolve_provider(Some("unsplash"), Some("wallhaven")).ok(), Some(ProviderIdentity::Unsplash));
    assert_eq!(resolve_provider(None, Some("unsplash")).ok(), Some(ProviderIdentity::Unsplash));
    assert_eq!(resolve_provider(None, None).ok(), Some(ProviderIdentity::Wallhaven));
    match resolve_provider(Some("wallhavn"), None) {
        Err(EngineError::UnknownProvider(n)) => assert_eq!(n, "wallhavn"),
        _ => panic!("expected an unknown-provider error"),
    }
}

#[test]
fn missing_credential_is_reported_before_any_request() {
    match Provider::connect(ProviderIdentity::Unsplash, None, None) {
        Err(EngineError::CredentialMissing(p)) => assert_eq!(p, "unsplash"),
        _ => panic!("expected a missing credential"),
    }
    assert!(matches!(Provider::connect(ProviderIdentity::Wallhaven, None, None), Ok(Provider::Wallhaven(_))));
    assert!(matches!(
        Provider::connect(ProviderIdentity::Unsplash, None, Some("k".into())),
        Ok(Provider::Unsplash(_))
    ));
}
