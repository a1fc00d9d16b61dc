use wallow::error::EngineError;
use wallow::gowall::{conversion_target, convert_args, parse_theme_list};
use wallow::schedule::{build_job_entry, cron_to_use, job_line, rewrite_job_table};
use wallow::upgrade::{detect_artifact, is_current_release, release_download_url};

#[test]
fn rewrite_twice_leaves_one_entry() {
    let entry = build_job_entry("0 8 * * *", "/usr/local/bin/wallow");
    assert_eq!(entry, "0 8 * * * /usr/local/bin/wallow schedule --run");
    let table = "MAILTO=me\n30 7 * * * /opt/wallow schedule --run\n5 * * * * backup\n";
    let once = rewrite_job_table(table, &entry);
    assert_eq!(once, "MAILTO=me\n5 * * * * backup\n0 8 * * * /usr/local/bin/wallow schedule --run\n");
    let twice = rewrite_job_table(&once, &entry);
    assert_eq!(twice, once);
    assert_eq!(twice.lines().filter(|l| job_line(l)).count(), 1);
}

#[test]
fn rewrite_of_empty_table() {
    assert_eq!(rewrite_job_table("", "e wallow schedule"), "e wallow schedule\n");
}

#[test]
fn cron_given_then_stored_then_error() {
    assert_eq!(cron_to_use(Some("1 * * * *"), Some("2 * * * *")).ok().as_deref(), Some("1 * * * *"));
    assert_eq!(cron_to_use(None, Some("2 * * * *")).ok().as_deref(), Some("2 * * * *"));
    assert!(matches!(cron_to_use(None, None), Err(EngineError::MissingCronExpression)));
}

#[test]
fn converter_arguments() {
    assert_eq!(convert_args("/a.jpg", "nord", None), vec!["convert", "/a.jpg", "-t", "nord"]);
    assert_eq!(
        convert_args("/a.jpg", "nord", Some("/o.jpg")),
        vec!["convert", "/a.jpg", "-t", "nord", "--output", "/o.jpg"]
    );
}

#[test]
fn conversion_targets() {
    assert_eq!(
        conversion_target("/w/wallow-wallhaven-abcd.jpg", "dracula", None, false, "/w/converted"),
        "/w/converted/wallow-dracula-wallhaven-abcd.jpg"
    );
    assert_eq!(conversion_target("/w/x.png", "nord", Some("/out"), true, "/c"), "/out/wallow-nord-x.png");
    assert_eq!(conversion_target("/w/x.png", "nord", Some("/out/y.png"), false, "/c"), "/out/y.png");
    assert_eq!(conversion_target("/", "nord", None, false, "/c"), "/c/wallow-nord-image.jpg");
}

#[test]
fn theme_list_is_trimmed_without_blanks() {
    assert_eq!(parse_theme_list("  catppuccin \n\n dracula\r\nnord"), vec!["catppuccin", "dracula", "nord"]);
    assert!(parse_theme_list("").is_empty());
}

#[test]
fn releases_and_artifacts() {
    assert!(is_current_release("v0.1.3", "0.1.3"));
    assert!(is_current_release("0.1.3", "0.1.3"));
    assert!(!is_current_release("v0.1.4", "0.1.3"));
    assert_eq!(detect_artifact("linux", "x86_64").ok().as_deref(), Some("wallow-linux-x64"));
    assert_eq!(detect_artifact("macos", "aarch64").ok().as_deref(), Some("wallow-macos-arm64"));
    assert_eq!(detect_artifact("macos", "x86_64").ok().as_deref(), Some("wallow-macos-x64"));
    match detect_artifact("windows", "x86_64") {
        Err(EngineError::UnsupportedPlatform(o, a)) => {
            assert_eq!(o, "windows");
            assert_eq!(a, "x86_64");
        }
        _ => panic!("expected an unsupported platform"),
    }
    assert_eq!(
        release_download_url("wallow-linux-x64"),
        "https://github.com/shlroland/wallow/releases/latest/download/wallow-linux-x64"
    );
}
