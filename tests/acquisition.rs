use wallow::config::{search_options, SearchOverrides, StoredSearch};
use wallow::pipeline::{Acquisition, PipelineAction, PipelineEvent, PipelineOutcome, PipelineState, Stage};
use wallow::source::wallhaven::WallhavenClient;
use wallow::source::{Provider, WallpaperInfo};

fn acquisition(count: usize, theme: Option<&str>, query: Option<&str>) -> Acquisition {
    let over = SearchOverrides { query: query.map(|q| q.to_string()), resolution: None, categories: None, purity: None, sorting: None };
    let stored = StoredSearch { query: None, resolution: None, categories: None, purity: None, sorting: None };
    Acquisition {
        provider: Provider::Wallhaven(WallhavenClient::new(None)),
        options: search_options(&over, &stored),
        count,
        theme: theme.map(|t| t.to_string()),
        wallpaper_dir: "/w".to_string(),
        converted_dir: "/w/converted".to_string(),
    }
}

fn record(id: &str) -> WallpaperInfo {
    WallpaperInfo {
        id: id.to_string(),
        url: format!("https://w.wallhaven.cc/full/xx/wallhaven-{}.jpg", id),
        resolution: "3840x2160".to_string(),
        source: "wallhaven".to_string(),
        extra: None,
    }
}

#[test]
fn empty_search_reports_no_results_without_downloads() {
    let a = acquisition(3, None, Some("nonexistent-xyz"));
    let mut st = PipelineState::ready();
    match a.step(&mut st, PipelineEvent::Start) {
        PipelineAction::Search(r) => assert_eq!(r.query[4].value, "nonexistent-xyz"),
        _ => panic!("expected the search"),
    }
    let act = a.step(&mut st, PipelineEvent::SearchReturned(Vec::new()));
    assert!(matches!(act, PipelineAction::Finish(PipelineOutcome::NoResults)));
    assert_eq!(st.stage, Stage::Done);
    assert!(matches!(a.step(&mut st, PipelineEvent::Downloaded("/w/x.jpg".into())), PipelineAction::Reject));
}

#[test]
fn downloads_the_first_count_results_in_order() {
    let a = acquisition(2, None, None);
    let mut st = PipelineState::ready();
    a.step(&mut st, PipelineEvent::Start);
    match a.step(&mut st, PipelineEvent::SearchReturned(vec![record("a"), record("b"), record("c")])) {
        PipelineAction::Download(w) => assert_eq!(w.id, "a"),
        _ => panic!("expected the first download"),
    }
    match a.step(&mut st, PipelineEvent::Downloaded("/w/wallow-wallhaven-a.jpg".into())) {
        PipelineAction::Download(w) => assert_eq!(w.id, "b"),
        _ => panic!("expected the second download"),
    }
    match a.step(&mut st, PipelineEvent::Downloaded("/w/wallow-wallhaven-b.jpg".into())) {
        PipelineAction::Finish(PipelineOutcome::Completed(ps)) => {
            assert_eq!(ps, vec!["/w/wallow-wallhaven-a.jpg", "/w/wallow-wallhaven-b.jpg"])
        }
        _ => panic!("expected completion"),
    }
}

#[test]
fn themed_download_is_converted_with_renamed_output() {
    let a = acquisition(1, Some("dracula"), None);
    let mut st = PipelineState::ready();
    a.step(&mut st, PipelineEvent::Start);
    a.step(&mut st, PipelineEvent::SearchReturned(vec![record("abcd")]));
    match a.step(&mut st, PipelineEvent::Downloaded("/w/wallow-wallhaven-abcd.jpg".into())) {
        PipelineAction::Convert { input, theme, output } => {
            assert_eq!(input, "/w/wallow-wallhaven-abcd.jpg");
            assert_eq!(theme, "dracula");
            assert_eq!(output, "/w/converted/wallow-dracula-wallhaven-abcd.jpg");
        }
        _ => panic!("expected the conversion"),
    }
    match a.step(&mut st, PipelineEvent::Converted) {
        PipelineAction::Finish(PipelineOutcome::Completed(ps)) => {
            assert_eq!(ps, vec!["/w/converted/wallow-dracula-wallhaven-abcd.jpg"])
        }
        _ => panic!("expected completion"),
    }
}

#[test]
fn zero_count_downloads_nothing() {
    let a = acquisition(0, None, None);
    let mut st = PipelineState::ready();
    a.step(&mut st, PipelineEvent::Start);
    match a.step(&mut st, PipelineEvent::SearchReturned(vec![record("a")])) {
        PipelineAction::Finish(PipelineOutcome::Completed(ps)) => assert!(ps.is_empty()),
        _ => panic!("expected completion without downloads"),
    }
}

#[test]
fn out_of_order_events_are_rejected() {
    let a = acquisition(1, None, None);
    let mut st = PipelineState::ready();
    assert!(matches!(a.step(&mut st, PipelineEvent::Converted), PipelineAction::Reject));
    assert_eq!(st.stage, Stage::Ready);
}
