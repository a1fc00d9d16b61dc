//! The acquisition pipeline as a state machine: search, keep the first
//! results, download each, optionally hand each file to the theme converter.
//! The caller performs each action and reports back the event.

use vstd::prelude::*;
use vstd::string::*;
use crate::paths::{converted_file_name, converted_name, file_name_of, file_name_spec, join_path, joined};
use crate::source::{HttpRequest, Provider, SearchOptions, WallpaperInfo, WallpaperSource};

verus! {

/// One acquisition: which provider, with which parameters, how many
/// wallpapers, the optional theme, and where files go.
pub struct Acquisition {
    pub provider: Provider,
    pub options: SearchOptions,
    /// How many of the results to download.
    pub count: usize,
    /// The theme to convert each download to, if any.
    pub theme: Option<String>,
    pub wallpaper_dir: String,
    pub converted_dir: String,
}

/// Where an acquisition stands.
#[derive(PartialEq, Eq, Structural, Clone, Copy, Debug)]
pub enum Stage {
    Ready,
    Searching,
    Downloading,
    Converting,
    Done,
}

/// The pipeline's state between events.
pub struct PipelineState {
    pub stage: Stage,
    /// The records chosen for download, in result order.
    pub selected: Vec<WallpaperInfo>,
    /// The index of the record being downloaded or converted.
    pub next: usize,
    /// The final paths of the wallpapers completed so far.
    pub finished: Vec<String>,
    /// The output path of the conversion in progress.
    pub pending: String,
}

/// What the caller reports.
pub enum PipelineEvent {
    Start,
    /// The search answered with these records, in the provider's order.
    SearchReturned(Vec<WallpaperInfo>),
    /// The record being downloaded was saved at this path.
    Downloaded(String),
    /// The conversion in progress wrote its output.
    Converted,
}

/// How an acquisition ended.
pub enum PipelineOutcome {
    /// The search found nothing: a final outcome, not a failure.
    NoResults,
    /// The final paths of the acquired wallpapers, in result order.
    Completed(Vec<String>),
}

/// What the caller is to do next.
pub enum PipelineAction {
    /// Send this search request.
    Search(HttpRequest),
    /// Download this record with the provider's download protocol.
    Download(WallpaperInfo),
    /// Convert `input` to `theme`, writing `output`.
    Convert { input: String, theme: String, output: String },
    /// The acquisition is over.
    Finish(PipelineOutcome),
    /// The event does not fit the stage; nothing is to be done.
    Reject,
}

/// Where a conversion of `input` to `theme` is written: the converted name of
/// the input's file name (`image.jpg` if it has none) in `dir`.
pub open spec fn conversion_output(dir: Seq<char>, input: Seq<char>, theme: Seq<char>) -> Seq<char> {
    let name = match file_name_spec(input) {
        Some(n) => n,
        None => "image.jpg"@,
    };
    joined(dir, converted_name(name, theme))
}

/// The smaller of two counts.
pub open spec fn min_count(a: int, b: int) -> int {
    if a < b { a } else { b }
}

/// After a wallpaper is completed at `path`: the next record is downloaded, or,
/// after the last, the acquisition finishes with all paths.
pub open spec fn advanced(before: PipelineState, after: PipelineState, r: PipelineAction, path: String) -> bool {
    &&& after.selected == before.selected
    &&& after.finished@ == before.finished@.push(path)
    &&& if before.next + 1 < before.selected@.len() {
        &&& after.stage == Stage::Downloading
        &&& after.next == before.next + 1
        &&& r matches PipelineAction::Download(w) && w == before.selected@[before.next + 1]
    } else {
        &&& after.stage == Stage::Done
        &&& r matches PipelineAction::Finish(PipelineOutcome::Completed(ps)) && ps@ == after.finished@
    }
}

/// The output path of converting `input` to `theme` in `dir`.
pub fn conversion_output_path(dir: &str, input: &str, theme: &str) -> (r: String)
    ensures
        r@ == conversion_output(dir@, input@, theme@),
{
    let name = match file_name_of(input) {
        Some(n) => n,
        None => String::from_str("image.jpg"),
    };
    let converted = converted_file_name(name.as_str(), theme);
    join_path(dir, converted.as_str())
}

impl PipelineState {
    /// The state before the acquisition starts.
    pub fn ready() -> (r: PipelineState)
        ensures
            r.stage == Stage::Ready,
            r.selected@.len() == 0,
            r.finished@.len() == 0,
    {
        PipelineState { stage: Stage::Ready, selected: Vec::new(), next: 0, finished: Vec::new(), pending: String::new() }
    }
}

impl Acquisition {
    fn complete(&self, state: &mut PipelineState, path: String) -> (r: PipelineAction)
        requires
            old(state).next < old(state).selected@.len(),
        ensures
            advanced(*old(state), *final(state), r, path),
    {
        state.finished.push(path);
        if state.next < state.selected.len() - 1 {
            state.next = state.next + 1;
            state.stage = Stage::Downloading;
            PipelineAction::Download(state.selected[state.next].duplicate())
        } else {
            state.stage = Stage::Done;
            let mut paths: Vec<String> = Vec::new();
            let mut i: usize = 0;
            while i < state.finished.len()
                invariant
                    i <= state.finished@.len(),
                    paths@ == state.finished@.subrange(0, i as int),
                decreases state.finished@.len() - i,
            {
                paths.push(state.finished[i].clone());
                i = i + 1;
                assert(paths@ =~= state.finished@.subrange(0, i as int));
            }
            assert(paths@ =~= state.finished@);
            PipelineAction::Finish(PipelineOutcome::Completed(paths))
        }
    }

    /// Advances the acquisition by one event. An empty search result ends it
    /// with `NoResults` and no download; at most `count` records are
    /// downloaded, in result order; with a theme, each download is converted
    /// before the next begins. Events that do not fit the stage change nothing.
    pub fn step(&self, state: &mut PipelineState, event: PipelineEvent) -> (r: PipelineAction)
        ensures
            old(state).stage == Stage::Ready ==> match event {
                PipelineEvent::Start => (r matches PipelineAction::Search(q)
                    && q@ == self.provider.search_request_spec(self.options))
                    && final(state).stage == Stage::Searching,
                _ => r is Reject && *final(state) == *old(state),
            },
            old(state).stage == Stage::Searching ==> match event {
                PipelineEvent::SearchReturned(rs) => if rs@.len() == 0 {
                    (r matches PipelineAction::Finish(PipelineOutcome::NoResults))
                        && final(state).stage == Stage::Done
                } else {
                    &&& final(state).selected@ == rs@.subrange(0, min_count(self.count as int, rs@.len() as int))
                    &&& final(state).finished@.len() == 0
                    &&& if self.count == 0 {
                        (r matches PipelineAction::Finish(PipelineOutcome::Completed(ps)) && ps@.len() == 0)
                            && final(state).stage == Stage::Done
                    } else {
                        (r matches PipelineAction::Download(w) && w == rs@[0])
                            && final(state).stage == Stage::Downloading && final(state).next == 0
                    }
                },
                _ => r is Reject && *final(state) == *old(state),
            },
            old(state).stage == Stage::Downloading ==> match event {
                PipelineEvent::Downloaded(p) => if old(state).next < old(state).selected@.len() {
                    match self.theme {
                        Some(t) => (r matches PipelineAction::Convert { input, theme, output }
                            && input == p && theme@ == t@
                            && output@ == conversion_output(self.converted_dir@, p@, t@))
                            && final(state).stage == Stage::Converting
                            && final(state).pending@ == conversion_output(self.converted_dir@, p@, t@)
                            && final(state).next == old(state).next
                            && final(state).selected == old(state).selected
                            && final(state).finished == old(state).finished,
                        None => advanced(*old(state), *final(state), r, p),
                    }
                } else {
                    r is Reject && *final(state) == *old(state)
                },
                _ => r is Reject && *final(state) == *old(state),
            },
            old(state).stage == Stage::Converting ==> match event {
                PipelineEvent::Converted => if old(state).next < old(state).selected@.len() {
                    advanced(*old(state), *final(state), r, old(state).pending)
                } else {
                    r is Reject && *final(state) == *old(state)
                },
                _ => r is Reject && *final(state) == *old(state),
            },
            old(state).stage == Stage::Done ==> r is Reject && *final(state) == *old(state),
    {
        match event {
            PipelineEvent::Start => {
                if state.stage == Stage::Ready {
                    state.stage = Stage::Searching;
                    PipelineAction::Search(self.provider.search_request(&self.options))
                } else {
                    PipelineAction::Reject
                }
            },
            PipelineEvent::SearchReturned(rs) => {
                if state.stage != Stage::Searching {
                    return PipelineAction::Reject;
                }
                if rs.len() == 0 {
                    state.stage = Stage::Done;
                    return PipelineAction::Finish(PipelineOutcome::NoResults);
                }
                let mut rs = rs;
                let k = if self.count < rs.len() { self.count } else { rs.len() };
                rs.truncate(k);
                state.selected = rs;
                state.finished = Vec::new();
                state.next = 0;
                if k == 0 {
                    state.stage = Stage::Done;
                    PipelineAction::Finish(PipelineOutcome::Completed(Vec::new()))
                } else {
                    state.stage = Stage::Downloading;
                    PipelineAction::Download(state.selected[0].duplicate())
                }
            },
            PipelineEvent::Downloaded(p) => {
                if state.stage != Stage::Downloading || state.next >= state.selected.len() {
                    return PipelineAction::Reject;
                }
                match &self.theme {
                    Some(t) => {
                        let output = conversion_output_path(self.converted_dir.as_str(), p.as_str(), t.as_str());
                        state.pending = output.clone();
                        state.stage = Stage::Converting;
                        PipelineAction::Convert { input: p, theme: t.clone(), output }
                    },
                    None => self.complete(state, p),
                }
            },
            PipelineEvent::Converted => {
                if state.stage != Stage::Converting || state.next >= state.selected.len() {
                    return PipelineAction::Reject;
                }
                let path = state.pending.clone();
                self.complete(state, path)
            },
        }
    }
}

} // verus!
