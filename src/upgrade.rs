//! Self-update decisions: whether a release is newer, and which prebuilt
//! artifact fits this platform.

use vstd::prelude::*;
use vstd::string::*;
use crate::error::EngineError;
use crate::text::{chars_of, push_str, str_eq, string_from_range};

verus! {

/// `s` without its leading `v` characters.
pub open spec fn strip_v(s: Seq<char>) -> Seq<char>
    decreases s.len(),
{
    if s.len() > 0 && s[0] == 'v' { strip_v(s.drop_first()) } else { s }
}

/// The artifact name for an operating system and architecture, if one is built.
pub open spec fn artifact_spec(os: Seq<char>, arch: Seq<char>) -> Option<Seq<char>> {
    if os == "macos"@ && arch == "x86_64"@ {
        Some("wallow-macos-x64"@)
    } else if os == "macos"@ && arch == "aarch64"@ {
        Some("wallow-macos-arm64"@)
    } else if os == "linux"@ && arch == "x86_64"@ {
        Some("wallow-linux-x64"@)
    } else {
        None
    }
}

/// Whether the release tagged `tag` is the running version: the tag without
/// its leading `v`s equals the version.
pub fn is_current_release(tag: &str, current: &str) -> (r: bool)
    ensures
        r == (strip_v(tag@) == current@),
{
    let cs = chars_of(tag);
    let n = cs.len();
    let mut i: usize = 0;
    assert(cs@.subrange(0, n as int) =~= tag@);
    while i < n && cs[i] == 'v'
        invariant
            i <= n,
            n == cs@.len(),
            strip_v(tag@) == strip_v(cs@.subrange(i as int, n as int)),
        decreases n - i,
    {
        assert(cs@.subrange(i as int, n as int).drop_first() =~= cs@.subrange(i + 1, n as int));
        i = i + 1;
    }
    let rest = string_from_range(&cs, i, n);
    str_eq(rest.as_str(), current)
}

/// The prebuilt artifact for this platform.
pub fn detect_artifact(os: &str, arch: &str) -> (r: Result<String, EngineError>)
    ensures
        match artifact_spec(os@, arch@) {
            Some(a) => (r matches Ok(x) && x@ == a),
            None => (r matches Err(EngineError::UnsupportedPlatform(o, a)) && o@ == os@ && a@ == arch@),
        },
{
    if str_eq(os, "macos") && str_eq(arch, "x86_64") {
        Ok(String::from_str("wallow-macos-x64"))
    } else if str_eq(os, "macos") && str_eq(arch, "aarch64") {
        Ok(String::from_str("wallow-macos-arm64"))
    } else if str_eq(os, "linux") && str_eq(arch, "x86_64") {
        Ok(String::from_str("wallow-linux-x64"))
    } else {
        Err(EngineError::UnsupportedPlatform(String::from_str(os), String::from_str(arch)))
    }
}

/// Where the latest release's artifact is downloaded from.
pub fn release_download_url(artifact: &str) -> (r: String)
    ensures
        r@ == "https://github.com/shlroland/wallow/releases/latest/download/"@ + artifact@,
{
    let mut url = String::from_str("https://github.com/shlroland/wallow/releases/latest/download/");
    push_str(&mut url, artifact);
    url
}

} // verus!
