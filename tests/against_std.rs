use std::path::Path;
use wallow::paths::{extension_of, file_name_of, join_path};
use wallow::text::{has_prefix, has_substring, lines, parse_u32, trimmed};

const SAMPLES: [&str; 16] = [
    "", "a", "a\n", "a\r\n", "\n\n", "a\r", "x\ny\r\nz", "  lead", "trail \t", "\u{2003}mid dle\u{85}",
    "/a/b/c.jpg", "a/b/", "a/./b/.", "../x", "..", ".hidden.png",
];

#[test]
fn lines_agree_with_std() {
    for s in SAMPLES {
        let expected: Vec<&str> = s.lines().collect();
        assert_eq!(lines(s), expected, "input {:?}", s);
    }
}

#[test]
fn trim_agrees_with_std() {
    for s in SAMPLES {
        assert_eq!(trimmed(s), s.trim(), "input {:?}", s);
    }
}

#[test]
fn parse_agrees_with_std() {
    for s in ["0", "00042", "+1", "-0", "4294967295", "4294967296", "99999999999", "1 ", "", "+", "x1"] {
        assert_eq!(parse_u32(s), s.parse::<u32>().ok(), "input {:?}", s);
    }
}

#[test]
fn file_name_and_extension_agree_with_std() {
    for s in SAMPLES {
        let p = Path::new(s);
        let name = p.file_name().and_then(|n| n.to_str()).map(|n| n.to_string());
        assert_eq!(file_name_of(s), name, "input {:?}", s);
    }
    for s in ["a.jpg", "a.b.c", ".hidden", ".hidden.png", "..", ".", "a.", "noext", "x.JPEG"] {
        let e = Path::new(s).extension().and_then(|e| e.to_str()).map(|e| e.to_string());
        assert_eq!(extension_of(s), e, "input {:?}", s);
    }
}

#[test]
fn join_agrees_with_std() {
    for (a, b) in [("/home/u", "x"), ("/home/u/", "x"), ("", "x"), ("/a", "/b"), ("rel", "y/z"), ("/", "etc")] {
        let expected = Path::new(a).join(b).to_str().unwrap().to_string();
        assert_eq!(join_path(a, b), expected, "input {:?} {:?}", a, b);
    }
}

#[test]
fn searching_agrees_with_std() {
    for s in SAMPLES {
        for p in ["", "a", "\n", "b/", ".."] {
            assert_eq!(has_substring(s, p), s.contains(p), "input {:?} {:?}", s, p);
            assert_eq!(has_prefix(s, p), s.starts_with(p), "input {:?} {:?}", s, p);
        }
    }
}
