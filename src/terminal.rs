//! Terminal capability detection and the preview command that the picker runs
//! for each candidate.

use vstd::prelude::*;
use vstd::string::*;
use crate::text::{decimal, push_decimal, push_str, str_eq};

verus! {

/// How the terminal can show an image inside the picker's preview pane.
#[derive(PartialEq, Eq, Structural, Clone, Copy, Debug)]
pub enum Capability {
    /// WezTerm, drawn by the rendering helper in the iTerm2 format.
    WeztermChafa,
    /// The kitty graphics protocol.
    Kitty,
    /// The iTerm2 image protocol.
    ITerm2,
    /// The rendering helper's own character-cell output.
    PlainChafa,
    /// No image rendering: the file name is shown.
    NoRendering,
}

/// The environment signals that identify the terminal.
pub struct TerminalSignals {
    /// The terminal-program name; empty when unset.
    pub term_program: String,
    /// The terminal-type name; empty when unset.
    pub term: String,
    /// Whether WezTerm announced its executable.
    pub wezterm_executable: bool,
    /// Whether kitty announced a window id.
    pub kitty_window_id: bool,
}

/// The terminal's geometry and capability, fixed for one invocation.
pub struct TerminalProfile {
    pub columns: u16,
    pub rows: u16,
    pub capability: Capability,
}

/// The terminal is WezTerm.
pub open spec fn is_wezterm(s: TerminalSignals) -> bool {
    s.term_program@ == "WezTerm"@ || s.wezterm_executable
}

/// The terminal is kitty.
pub open spec fn is_kitty(s: TerminalSignals) -> bool {
    s.term@ == "xterm-kitty"@ || s.kitty_window_id
}

/// The terminal is iTerm2.
pub open spec fn is_iterm(s: TerminalSignals) -> bool {
    s.term_program@ == "iTerm.app"@
}

/// The capability by fixed precedence. WezTerm comes first and is served by
/// the rendering helper although it speaks a richer protocol: that protocol
/// does not display inside a redirected preview, so this override is
/// deliberate and specific to that terminal. Without the helper, WezTerm gets
/// no rendering (and the picker refuses to start there).
pub open spec fn detect_spec(s: TerminalSignals, helper_present: bool) -> Capability {
    if is_wezterm(s) {
        if helper_present { Capability::WeztermChafa } else { Capability::NoRendering }
    } else if is_kitty(s) {
        Capability::Kitty
    } else if is_iterm(s) {
        Capability::ITerm2
    } else if helper_present {
        Capability::PlainChafa
    } else {
        Capability::NoRendering
    }
}

/// Whether the signals name WezTerm.
pub fn wezterm_signalled(s: &TerminalSignals) -> (r: bool)
    ensures
        r == is_wezterm(*s),
{
    str_eq(s.term_program.as_str(), "WezTerm") || s.wezterm_executable
}

/// Classifies the terminal; `helper_present` tells whether the rendering
/// helper is installed.
pub fn detect(s: &TerminalSignals, helper_present: bool) -> (r: Capability)
    ensures
        r == detect_spec(*s, helper_present),
{
    if wezterm_signalled(s) {
        if helper_present { Capability::WeztermChafa } else { Capability::NoRendering }
    } else if str_eq(s.term.as_str(), "xterm-kitty") || s.kitty_window_id {
        Capability::Kitty
    } else if str_eq(s.term_program.as_str(), "iTerm.app") {
        Capability::ITerm2
    } else if helper_present {
        Capability::PlainChafa
    } else {
        Capability::NoRendering
    }
}

/// The geometry from the probes of standard output, standard error and
/// standard input, in that order: the first that reported a positive width and
/// height, else 80 by 24.
pub open spec fn size_from(probes: Seq<Option<(u16, u16)>>) -> (u16, u16)
    decreases probes.len(),
{
    if probes.len() == 0 {
        (80, 24)
    } else {
        match probes[0] {
            Some(wh) => if wh.0 > 0 && wh.1 > 0 { wh } else { size_from(probes.drop_first()) },
            None => size_from(probes.drop_first()),
        }
    }
}

/// Picks the geometry from the probe results (columns, rows), each `None`
/// where the probe failed.
pub fn terminal_size(probes: &Vec<Option<(u16, u16)>>) -> (r: (u16, u16))
    ensures
        r == size_from(probes@),
{
    let mut i: usize = 0;
    assert(probes@.skip(0) =~= probes@);
    while i < probes.len()
        invariant
            i <= probes@.len(),
            size_from(probes@) == size_from(probes@.skip(i as int)),
        decreases probes@.len() - i,
    {
        assert(probes@.skip(i as int).drop_first() =~= probes@.skip(i + 1));
        assert(probes@.skip(i as int)[0] == probes@[i as int]);
        if let Some(wh) = probes[i] {
            if wh.0 > 0 && wh.1 > 0 {
                return wh;
            }
        }
        i = i + 1;
    }
    assert(probes@.skip(i as int) =~= Seq::<Option<(u16, u16)>>::empty());
    (80, 24)
}

/// The profile of a terminal of the given size.
pub fn profile(columns: u16, rows: u16, s: &TerminalSignals, helper_present: bool) -> (r: TerminalProfile)
    ensures
        r.columns == columns,
        r.rows == rows,
        r.capability == detect_spec(*s, helper_present),
{
    TerminalProfile { columns, rows, capability: detect(s, helper_present) }
}

/// The preview pane's width in cells: 60% of the terminal, at least 20.
pub open spec fn preview_width(columns: u16) -> nat {
    let w = columns as nat * 60 / 100;
    if w < 20 { 20 } else { w }
}

/// The preview pane's height: the terminal's minus two rows for the
/// picker's own interface, at least 10.
pub open spec fn preview_height(rows: u16) -> nat {
    let h: nat = if rows >= 2 { (rows - 2) as nat } else { 0 };
    if h < 10 { 10 } else { h }
}

/// The helper's size argument, `-s WxH`.
pub open spec fn size_arg(p: TerminalProfile) -> Seq<char> {
    "-s "@ + decimal(preview_width(p.columns)) + "x"@ + decimal(preview_height(p.rows))
}

/// The preview command for one candidate, `{}` standing for its path.
pub open spec fn preview_spec(p: TerminalProfile) -> Seq<char> {
    match p.capability {
        Capability::WeztermChafa => "chafa -f iterm "@ + size_arg(p) + " --animate false {}"@,
        Capability::Kitty =>
            "kitty +kitten icat --clear --transfer-mode=memory --stdin=no --place=${FZF_PREVIEW_COLUMNS}x${FZF_PREVIEW_LINES}@0x0 {}"@,
        Capability::ITerm2 => "imgcat -W ${FZF_PREVIEW_COLUMNS} -H ${FZF_PREVIEW_LINES} {}"@,
        Capability::PlainChafa => "chafa "@ + size_arg(p) + " --animate false {}"@,
        Capability::NoRendering => "echo {}"@,
    }
}

fn push_size_arg(out: &mut String, p: &TerminalProfile)
    ensures
        final(out)@ == old(out)@ + size_arg(*p),
{
    let w0: u64 = p.columns as u64 * 60 / 100;
    let w: u64 = if w0 < 20 { 20 } else { w0 };
    let h0: u64 = if p.rows >= 2 { (p.rows - 2) as u64 } else { 0 };
    let h: u64 = if h0 < 10 { 10 } else { h0 };
    push_str(out, "-s ");
    push_decimal(out, w);
    push_str(out, "x");
    push_decimal(out, h);
    assert(final(out)@ =~= old(out)@ + size_arg(*p));
}

/// The preview command that the picker runs for each candidate.
pub fn synthesize(p: &TerminalProfile) -> (r: String)
    ensures
        r@ == preview_spec(*p),
{
    match p.capability {
        Capability::WeztermChafa => {
            let mut out = String::from_str("chafa -f iterm ");
            push_size_arg(&mut out, p);
            push_str(&mut out, " --animate false {}");
            out
        },
        Capability::Kitty => String::from_str(
            "kitty +kitten icat --clear --transfer-mode=memory --stdin=no --place=${FZF_PREVIEW_COLUMNS}x${FZF_PREVIEW_LINES}@0x0 {}",
        ),
        Capability::ITerm2 => String::from_str("imgcat -W ${FZF_PREVIEW_COLUMNS} -H ${FZF_PREVIEW_LINES} {}"),
        Capability::PlainChafa => {
            let mut out = String::from_str("chafa ");
            push_size_arg(&mut out, p);
            push_str(&mut out, " --animate false {}");
            out
        },
        Capability::NoRendering => String::from_str("echo {}"),
    }
}

/// WezTerm with the rendering helper is always served by the helper, whatever
/// else the environment says; a terminal with no recognised signal and no
/// helper gets no rendering, and its preview only echoes the file name.
pub proof fn lemma_capability_extremes(s: TerminalSignals, columns: u16, rows: u16)
    ensures
        s.term_program@ == "WezTerm"@ ==> detect_spec(s, true) == Capability::WeztermChafa,
        !is_wezterm(s) && !is_kitty(s) && !is_iterm(s) ==> detect_spec(s, false) == Capability::NoRendering
            && preview_spec(TerminalProfile { columns, rows, capability: detect_spec(s, false) }) == "echo {}"@,
{
}

} // verus!
