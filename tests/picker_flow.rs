use wallow::error::EngineError;
use wallow::picker::{
    build_selector_command, collect_candidates, image_name, picker_after_probe, picker_start,
    selection, DirEntryInfo, DirListing, PickerStep,
};
use wallow::terminal::{detect, profile, synthesize, terminal_size, Capability, TerminalProfile, TerminalSignals};

fn signals(program: &str, term: &str) -> TerminalSignals {
    TerminalSignals {
        term_program: program.to_string(),
        term: term.to_string(),
        wezterm_executable: false,
        kitty_window_id: false,
    }
}

#[test]
fn wezterm_with_helper_uses_helper() {
    assert_eq!(detect(&signals("WezTerm", "xterm-kitty"), true), Capability::WeztermChafa);
}

#[test]
fn no_signals_no_helper_echoes_file_name() {
    let cap = detect(&signals("", "xterm-256color"), false);
    assert_eq!(cap, Capability::NoRendering);
    let p = TerminalProfile { columns: 120, rows: 40, capability: cap };
    assert_eq!(synthesize(&p), "echo {}");
}

#[test]
fn capability_precedence() {
    assert_eq!(detect(&signals("", "xterm-kitty"), true), Capability::Kitty);
    assert_eq!(detect(&signals("iTerm.app", ""), true), Capability::ITerm2);
    assert_eq!(detect(&signals("Apple_Terminal", ""), true), Capability::PlainChafa);
    let mut w = signals("", "");
    w.wezterm_executable = true;
    assert_eq!(detect(&w, true), Capability::WeztermChafa);
    assert_eq!(detect(&w, false), Capability::NoRendering);
}

#[test]
fn preview_geometry_is_sixty_percent_and_two_rows_less() {
    let p = profile(200, 50, &signals("WezTerm", ""), true);
    assert_eq!(synthesize(&p), "chafa -f iterm -s 120x48 --animate false {}");
    let small = TerminalProfile { columns: 10, rows: 5, capability: Capability::PlainChafa };
    assert_eq!(synthesize(&small), "chafa -s 20x10 --animate false {}");
    let k = TerminalProfile { columns: 80, rows: 24, capability: Capability::Kitty };
    assert_eq!(
        synthesize(&k),
        "kitty +kitten icat --clear --transfer-mode=memory --stdin=no --place=${FZF_PREVIEW_COLUMNS}x${FZF_PREVIEW_LINES}@0x0 {}"
    );
    let i = TerminalProfile { columns: 80, rows: 24, capability: Capability::ITerm2 };
    assert_eq!(synthesize(&i), "imgcat -W ${FZF_PREVIEW_COLUMNS} -H ${FZF_PREVIEW_LINES} {}");
}

#[test]
fn terminal_size_falls_back_in_order() {
    assert_eq!(terminal_size(&vec![None, Some((0, 30)), Some((100, 30))]), (100, 30));
    assert_eq!(terminal_size(&vec![Some((90, 20)), Some((100, 30))]), (90, 20));
    assert_eq!(terminal_size(&vec![None, None, None]), (80, 24));
}

#[test]
fn candidates_are_image_files_in_listing_order() {
    let listings = vec![
        DirListing {
            dir: "/w".into(),
            entries: vec![
                DirEntryInfo { name: "a.JPG".into(), is_file: true },
                DirEntryInfo { name: "notes.txt".into(), is_file: true },
                DirEntryInfo { name: "sub.png".into(), is_file: false },
                DirEntryInfo { name: "b.webp".into(), is_file: true },
            ],
        },
        DirListing { dir: "/w/converted".into(), entries: vec![DirEntryInfo { name: "c.jpeg".into(), is_file: true }] },
    ];
    assert_eq!(collect_candidates(&listings), vec!["/w/a.JPG", "/w/b.webp", "/w/converted/c.jpeg"]);
    assert!(image_name("x.PnG"));
    assert!(!image_name(".png"));
    assert!(!image_name("x.gif"));
}

#[test]
fn no_candidates_stops_before_any_tool() {
    assert!(matches!(picker_start(0, true), PickerStep::NoWallpapers));
    assert!(matches!(picker_start(0, false), PickerStep::NoWallpapers));
    assert!(matches!(picker_start(3, false), PickerStep::PrintList));
    assert!(matches!(picker_start(3, true), PickerStep::ProbeTools));
}

#[test]
fn missing_tools_fail_fast() {
    let c = vec!["/w/a.jpg".to_string()];
    match picker_after_probe(&c, false, true, &signals("", ""), 80, 24, "/tmp/sel") {
        PickerStep::Fail(EngineError::ExternalToolMissing(t)) => assert_eq!(t, "fzf"),
        _ => panic!("expected the selector to be missing"),
    }
    match picker_after_probe(&c, true, false, &signals("WezTerm", ""), 80, 24, "/tmp/sel") {
        PickerStep::Fail(EngineError::ExternalToolMissing(t)) => assert_eq!(t, "chafa"),
        _ => panic!("expected the helper to be missing"),
    }
}

#[test]
fn selector_pipeline_quotes_paths_and_escapes_preview() {
    let c = vec!["/w/it's.jpg".to_string(), "/w/b.png".to_string()];
    let cmd = build_selector_command(&c, "echo \"{}\"", "/tmp/sel.txt");
    assert_eq!(
        cmd,
        "printf '%s\\n' '/w/it'\\''s.jpg' '/w/b.png' | fzf --preview \"sh -c 'echo \\\"{}\\\"'\" --preview-window=right:60% --ansi > /tmp/sel.txt"
    );
    match picker_after_probe(&c, true, false, &signals("", ""), 80, 24, "/tmp/sel.txt") {
        PickerStep::RunSelector(s) => assert!(s.ends_with("sh -c 'echo {}'\" --preview-window=right:60% --ansi > /tmp/sel.txt")),
        _ => panic!("expected the selector to run"),
    }
}

#[test]
fn selection_contents_and_cancellation() {
    assert_eq!(selection(true, Some("/w/a.jpg\n")), Some("/w/a.jpg".to_string()));
    assert_eq!(selection(true, Some("  \n")), None);
    assert_eq!(selection(false, Some("/w/a.jpg\n")), None);
    assert_eq!(selection(true, None), None);
}
