//! The interactive picker: which files are candidates, the single shell
//! pipeline that hands the candidates to the external selector with a preview
//! pane, and what its recorded selection means.

use vstd::prelude::*;
use vstd::string::*;
use crate::error::EngineError;
use crate::paths::{extension_of, extension_spec, join_path, joined};
use crate::terminal::{detect_spec, is_wezterm, preview_spec, profile, synthesize, wezterm_signalled, TerminalProfile, TerminalSignals};
use crate::text::{chars_of, push_char, push_replacing, push_str, replace_char, trim, trimmed};

verus! {

/// A directory entry as a listing reports it.
pub struct DirEntryInfo {
    pub name: String,
    /// Whether the entry is a regular file.
    pub is_file: bool,
}

/// The entries of one directory.
pub struct DirListing {
    pub dir: String,
    pub entries: Vec<DirEntryInfo>,
}

/// A character with ASCII capitals made small.
pub open spec fn ascii_lower(c: char) -> char {
    if 'A' <= c && c <= 'Z' { (((c as u8) + 32) as u8) as char } else { c }
}

/// A sequence with ASCII capitals made small.
pub open spec fn lowered(s: Seq<char>) -> Seq<char> {
    s.map_values(|c: char| ascii_lower(c))
}

/// The extensions of the image formats offered for selection, in lower case.
pub open spec fn is_image_extension(e: Seq<char>) -> bool {
    e == "jpg"@ || e == "jpeg"@ || e == "png"@ || e == "webp"@
}

/// A file name whose extension, letter case aside, is that of an image format.
pub open spec fn is_image_name(name: Seq<char>) -> bool {
    match extension_spec(name) {
        Some(e) => is_image_extension(lowered(e)),
        None => false,
    }
}

/// The candidate paths in one directory, in listing order.
pub open spec fn candidates_in(dir: Seq<char>, entries: Seq<DirEntryInfo>) -> Seq<Seq<char>>
    decreases entries.len(),
{
    if entries.len() == 0 {
        Seq::empty()
    } else {
        let rest = candidates_in(dir, entries.drop_last());
        let e = entries.last();
        if e.is_file && is_image_name(e.name@) {
            rest.push(joined(dir, e.name@))
        } else {
            rest
        }
    }
}

/// The candidate paths of all listings, directory by directory.
pub open spec fn candidates_of(listings: Seq<DirListing>) -> Seq<Seq<char>>
    decreases listings.len(),
{
    if listings.len() == 0 {
        Seq::empty()
    } else {
        candidates_of(listings.drop_last()) + candidates_in(listings.last().dir@, listings.last().entries@)
    }
}

fn lower_exec(s: &str) -> (r: String)
    ensures
        r@ == lowered(s@),
{
    let cs = chars_of(s);
    let mut out = String::new();
    let mut i: usize = 0;
    while i < cs.len()
        invariant
            i <= cs@.len(),
            cs@ == s@,
            out@ == lowered(cs@.subrange(0, i as int)),
        decreases cs@.len() - i,
    {
        let c = cs[i];
        let l = if 'A' <= c && c <= 'Z' { ((c as u8) + 32) as char } else { c };
        push_char(&mut out, l);
        i = i + 1;
        assert(out@ =~= lowered(cs@.subrange(0, i as int)));
    }
    assert(cs@.subrange(0, cs@.len() as int) =~= s@);
    out
}

/// Whether a file name is that of an image offered for selection.
pub fn image_name(name: &str) -> (r: bool)
    ensures
        r == is_image_name(name@),
{
    match extension_of(name) {
        Some(e) => {
            let l = lower_exec(e.as_str());
            crate::text::str_eq(l.as_str(), "jpg") || crate::text::str_eq(l.as_str(), "jpeg")
                || crate::text::str_eq(l.as_str(), "png") || crate::text::str_eq(l.as_str(), "webp")
        },
        None => false,
    }
}

/// Appends the candidate paths of one directory.
fn push_candidates_in(out: &mut Vec<String>, listing: &DirListing)
    ensures
        final(out).deep_view() == old(out).deep_view() + candidates_in(listing.dir@, listing.entries@),
{
    let entries = &listing.entries;
    let mut i: usize = 0;
    assert(entries@.subrange(0, 0) =~= Seq::<DirEntryInfo>::empty());
    assert(out.deep_view() =~= old(out).deep_view() + candidates_in(listing.dir@, entries@.subrange(0, 0)));
    while i < entries.len()
        invariant
            i <= entries@.len(),
            out.deep_view() == old(out).deep_view() + candidates_in(listing.dir@, entries@.subrange(0, i as int)),
        decreases entries@.len() - i,
    {
        let ghost next = entries@.subrange(0, i + 1);
        assert(next.drop_last() =~= entries@.subrange(0, i as int));
        assert(next.last() == entries@[i as int]);
        let ghost before = out.deep_view();
        let e = &entries[i];
        if e.is_file && image_name(e.name.as_str()) {
            let p = join_path(listing.dir.as_str(), e.name.as_str());
            out.push(p);
            assert(out.deep_view() =~= before.push(joined(listing.dir@, e.name@)));
        }
        assert(out.deep_view() =~= old(out).deep_view() + candidates_in(listing.dir@, next));
        i = i + 1;
    }
    assert(entries@.subrange(0, entries@.len() as int) =~= entries@);
}

/// The candidate set: in each listed directory, the regular files with an
/// image extension, directory by directory and in listing order.
pub fn collect_candidates(listings: &Vec<DirListing>) -> (r: Vec<String>)
    ensures
        r.deep_view() == candidates_of(listings@),
{
    let mut out: Vec<String> = Vec::new();
    let mut i: usize = 0;
    assert(listings@.subrange(0, 0) =~= Seq::<DirListing>::empty());
    assert(out.deep_view() =~= Seq::<Seq<char>>::empty());
    while i < listings.len()
        invariant
            i <= listings@.len(),
            out.deep_view() == candidates_of(listings@.subrange(0, i as int)),
        decreases listings@.len() - i,
    {
        let ghost next = listings@.subrange(0, i + 1);
        assert(next.drop_last() =~= listings@.subrange(0, i as int));
        assert(next.last() == listings@[i as int]);
        push_candidates_in(&mut out, &listings[i]);
        i = i + 1;
    }
    assert(listings@.subrange(0, listings@.len() as int) =~= listings@);
    out
}

/// A path in single quotes for the shell, each quote inside closed, escaped and reopened.
pub open spec fn shell_quoted(p: Seq<char>) -> Seq<char> {
    "'"@ + replace_char(p, '\'', "'\\''"@) + "'"@
}

/// The quoted paths, separated by spaces.
pub open spec fn quoted_list(ps: Seq<Seq<char>>) -> Seq<char>
    decreases ps.len(),
{
    if ps.len() == 0 {
        Seq::empty()
    } else if ps.len() == 1 {
        shell_quoted(ps[0])
    } else {
        quoted_list(ps.drop_last()) + " "@ + shell_quoted(ps.last())
    }
}

/// The pipeline run by `sh -c`: the candidates, one per line, into the
/// selector with the preview (its double quotes escaped) in a right-hand pane
/// of 60% width, the chosen line redirected into the selection file.
pub open spec fn selector_command(paths: Seq<Seq<char>>, preview: Seq<char>, selection_file: Seq<char>) -> Seq<char> {
    "printf '%s\\n' "@ + quoted_list(paths) + " | fzf --preview \"sh -c '"@ + replace_char(preview, '"', "\\\""@)
        + "'\" --preview-window=right:60% --ansi > "@ + selection_file
}

fn push_quoted(out: &mut String, p: &str)
    ensures
        final(out)@ == old(out)@ + shell_quoted(p@),
{
    push_str(out, "'");
    push_replacing(out, p, '\'', "'\\''");
    push_str(out, "'");
    assert(final(out)@ =~= old(out)@ + shell_quoted(p@));
}

/// The shell pipeline for the given candidates, preview command and selection file.
pub fn build_selector_command(paths: &Vec<String>, preview: &str, selection_file: &str) -> (r: String)
    ensures
        r@ == selector_command(paths.deep_view(), preview@, selection_file@),
{
    let mut out = String::from_str("printf '%s\\n' ");
    let ghost head = out@;
    let mut i: usize = 0;
    assert(paths.deep_view().subrange(0, 0) =~= Seq::<Seq<char>>::empty());
    assert(out@ =~= head + quoted_list(paths.deep_view().subrange(0, 0)));
    while i < paths.len()
        invariant
            i <= paths@.len(),
            out@ == head + quoted_list(paths.deep_view().subrange(0, i as int)),
        decreases paths@.len() - i,
    {
        let ghost next = paths.deep_view().subrange(0, i + 1);
        assert(next.drop_last() =~= paths.deep_view().subrange(0, i as int));
        assert(next.last() == paths@[i as int]@);
        if i > 0 {
            push_str(&mut out, " ");
        }
        push_quoted(&mut out, paths[i].as_str());
        proof {
            if i == 0 {
                assert(next[0] == next.last());
            }
        }
        assert(out@ =~= head + quoted_list(next));
        i = i + 1;
    }
    assert(paths.deep_view().subrange(0, paths@.len() as int) =~= paths.deep_view());
    push_str(&mut out, " | fzf --preview \"sh -c '");
    push_replacing(&mut out, preview, '"', "\\\"");
    push_str(&mut out, "'\" --preview-window=right:60% --ansi > ");
    push_str(&mut out, selection_file);
    assert(out@ =~= selector_command(paths.deep_view(), preview@, selection_file@));
    out
}

/// What the picker does next.
pub enum PickerStep {
    /// No candidates: report that there are no wallpapers and stop.
    NoWallpapers,
    /// Print the candidates, one per line.
    PrintList,
    /// Check that the selector and the rendering helper are installed.
    ProbeTools,
    /// Stop with this error.
    Fail(EngineError),
    /// Run this pipeline with `sh -c`, then read and remove the selection file.
    RunSelector(String),
}

/// The picker's first decision. With no candidates it stops before anything
/// else, so no external program is started.
pub fn picker_start(candidate_count: usize, interactive: bool) -> (r: PickerStep)
    ensures
        candidate_count == 0 ==> r is NoWallpapers,
        candidate_count > 0 && !interactive ==> r is PrintList,
        candidate_count > 0 && interactive ==> r is ProbeTools,
{
    if candidate_count == 0 {
        PickerStep::NoWallpapers
    } else if !interactive {
        PickerStep::PrintList
    } else {
        PickerStep::ProbeTools
    }
}

/// The picker's decision once the tools are probed: a missing selector, or
/// under WezTerm a missing rendering helper, fails before anything runs;
/// otherwise the selector pipeline runs with the preview for this terminal.
pub fn picker_after_probe(
    candidates: &Vec<String>,
    selector_present: bool,
    helper_present: bool,
    signals: &TerminalSignals,
    columns: u16,
    rows: u16,
    selection_file: &str,
) -> (r: PickerStep)
    ensures
        !selector_present ==> (r matches PickerStep::Fail(EngineError::ExternalToolMissing(t)) && t@ == "fzf"@),
        selector_present && is_wezterm(*signals) && !helper_present ==> (r matches PickerStep::Fail(
            EngineError::ExternalToolMissing(t),
        ) && t@ == "chafa"@),
        selector_present && (!is_wezterm(*signals) || helper_present) ==> (r matches PickerStep::RunSelector(c)
            && c@ == selector_command(
                candidates.deep_view(),
                preview_spec(TerminalProfile { columns, rows, capability: detect_spec(*signals, helper_present) }),
                selection_file@,
            )),
{
    if !selector_present {
        return PickerStep::Fail(EngineError::ExternalToolMissing(String::from_str("fzf")));
    }
    if wezterm_signalled(signals) && !helper_present {
        return PickerStep::Fail(EngineError::ExternalToolMissing(String::from_str("chafa")));
    }
    let p = profile(columns, rows, signals, helper_present);
    let preview = synthesize(&p);
    PickerStep::RunSelector(build_selector_command(candidates, preview.as_str(), selection_file))
}

/// The path chosen, from the selector's exit status and the selection file's
/// contents: the trimmed contents after a successful exit, unless empty, which
/// means the user cancelled.
pub open spec fn selection_spec(success: bool, contents: Option<Seq<char>>) -> Option<Seq<char>> {
    match contents {
        Some(c) => if success && trim(c).len() > 0 { Some(trim(c)) } else { None },
        None => None,
    }
}

/// The path chosen; `None` when the user cancelled or the selector failed.
pub fn selection(success: bool, contents: Option<&str>) -> (r: Option<String>)
    ensures
        match r {
            Some(x) => selection_spec(success, crate::config::opt_view(contents)) == Some(x@),
            None => selection_spec(success, crate::config::opt_view(contents)) is None,
        },
{
    match contents {
        Some(c) => {
            if !success {
                return None;
            }
            let t = trimmed(c);
            if t.unicode_len() > 0 {
                Some(t)
            } else {
                None
            }
        },
        None => None,
    }
}

} // verus!
