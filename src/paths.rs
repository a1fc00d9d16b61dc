//! File and path naming rules: the engine prefix that marks files this tool
//! wrote, joining, final path components, extensions and converted names.

use vstd::prelude::*;
use vstd::string::*;
use crate::text::{
    chars_of, has_prefix, push_char, push_range, push_str, split_chars, split_on, starts_with, str_eq,
    string_from_range,
};

verus! {

/// The marker that starts the name of every file this tool writes.
pub open spec fn engine_prefix() -> Seq<char> {
    "wallow-"@
}

/// A path is absolute when it starts at the root.
pub open spec fn is_absolute(p: Seq<char>) -> bool {
    p.len() > 0 && p[0] == '/'
}

/// `base` joined with `rel` as `Path::join` does on Unix: an absolute `rel`
/// replaces `base`, otherwise a separator is put between them when `base`
/// is non-empty and does not already end with one.
pub open spec fn joined(base: Seq<char>, rel: Seq<char>) -> Seq<char> {
    if is_absolute(rel) {
        rel
    } else if base.len() == 0 || base.last() == '/' {
        base + rel
    } else {
        base + seq!['/'] + rel
    }
}

/// A path component that names an entry (not empty, not the current directory).
pub open spec fn is_named_component(x: Seq<char>) -> bool {
    x.len() > 0 && x != seq!['.']
}

/// The test `is_named_component` as a function value.
pub open spec fn named_pred() -> spec_fn(Seq<char>) -> bool {
    |x: Seq<char>| is_named_component(x)
}

/// The components of `p` that name an entry, in order.
pub open spec fn named_components(p: Seq<char>) -> Seq<Seq<char>> {
    split_on(p, '/').filter(named_pred())
}

/// The final component of `p`, as `Path::file_name` gives it: none when the
/// path has no named component or ends in `..`.
pub open spec fn file_name_spec(p: Seq<char>) -> Option<Seq<char>> {
    let comps = named_components(p);
    if comps.len() == 0 || comps.last() == seq!['.', '.'] {
        None
    } else {
        Some(comps.last())
    }
}

/// The extension of a file name, as `Path::extension` gives it: the part after
/// the last `.`, unless that dot starts the name or the name is `..`.
pub open spec fn extension_spec(name: Seq<char>) -> Option<Seq<char>> {
    if name == seq!['.', '.'] {
        None
    } else if exists|i: int| 0 < i < name.len() && name[i] == '.' && (forall|j: int|
        i < j < name.len() ==> name[j] != '.') {
        let i = choose|i: int|
            0 < i < name.len() && name[i] == '.' && (forall|j: int| i < j < name.len() ==> name[j] != '.');
        Some(name.subrange(i + 1, name.len() as int))
    } else {
        None
    }
}

/// The name a converted image gets: the engine prefix, the theme, a dash and
/// the source file's name, where an engine prefix already on that name is not
/// repeated: the theme goes right after it.
pub open spec fn converted_name(name: Seq<char>, theme: Seq<char>) -> Seq<char> {
    if starts_with(name, engine_prefix()) {
        engine_prefix() + theme + seq!['-'] + name.skip(engine_prefix().len() as int)
    } else {
        engine_prefix() + theme + seq!['-'] + name
    }
}

/// The engine prefix as a string.
pub fn engine_prefix_string() -> (r: String)
    ensures
        r@ == engine_prefix(),
{
    String::from_str("wallow-")
}

/// Whether a file name carries the engine prefix, so that cleanup may remove it.
pub fn is_engine_file(name: &str) -> (r: bool)
    ensures
        r == starts_with(name@, engine_prefix()),
{
    has_prefix(name, "wallow-")
}

/// Whether a path is absolute.
pub fn path_is_absolute(p: &str) -> (r: bool)
    ensures
        r == is_absolute(p@),
{
    let cs = chars_of(p);
    cs.len() > 0 && cs[0] == '/'
}

/// `base` joined with `rel`.
pub fn join_path(base: &str, rel: &str) -> (r: String)
    ensures
        r@ == joined(base@, rel@),
{
    if path_is_absolute(rel) {
        return String::from_str(rel);
    }
    let bc = chars_of(base);
    let mut out = String::from_str(base);
    if bc.len() > 0 && bc[bc.len() - 1] != '/' {
        push_char(&mut out, '/');
    }
    push_str(&mut out, rel);
    out
}

/// The final named component of a path.
pub fn file_name_of(p: &str) -> (r: Option<String>)
    ensures
        r matches Some(x) ==> file_name_spec(p@) == Some(x@),
        r is None ==> file_name_spec(p@) is None,
{
    let cs = chars_of(p);
    let segs = split_chars(&cs, '/');
    let ghost all = split_on(p@, '/');
    let ghost pred = named_pred();
    let mut j: usize = segs.len();
    assert(all.subrange(0, j as int) =~= all);
    while j > 0 && !named(&segs[j - 1])
        invariant
            j <= segs@.len(),
            segs.deep_view() == all,
            all == split_on(p@, '/'),
            pred == named_pred(),
            all.subrange(0, j as int).filter(pred) == all.filter(pred),
        decreases j,
    {
        let ghost front = all.subrange(0, j as int);
        assert(front.drop_last() =~= all.subrange(0, j - 1));
        assert(front.last() == segs.deep_view()[j - 1]);
        assert(!pred(front.last()));
        reveal(Seq::filter);
        assert(front.filter(pred) == front.drop_last().filter(pred));
        j = j - 1;
    }
    if j == 0 {
        assert(all.subrange(0, 0) =~= Seq::<Seq<char>>::empty());
        reveal(Seq::filter);
        return None;
    }
    let ghost front = all.subrange(0, j as int);
    assert(front.drop_last() =~= all.subrange(0, j - 1));
    assert(front.last() == segs.deep_view()[j - 1]);
    assert(pred(front.last()));
    reveal(Seq::filter);
    assert(all.filter(pred) == front.drop_last().filter(pred).push(front.last()));
    let last = &segs[j - 1];
    if str_eq(last.as_str(), "..") {
        proof {
            reveal_strlit("..");
            assert(".."@ =~= seq!['.', '.']);
        }
        None
    } else {
        proof {
            reveal_strlit("..");
            assert(".."@ =~= seq!['.', '.']);
        }
        Some(last.clone())
    }
}

fn named(x: &String) -> (r: bool)
    ensures
        r == is_named_component(x@),
{
    let cs = chars_of(x.as_str());
    proof {
        if cs@.len() == 1 && cs@[0] == '.' {
            assert(x@ =~= seq!['.']);
        }
    }
    cs.len() > 0 && !(cs.len() == 1 && cs[0] == '.')
}

/// The extension of a file name.
pub fn extension_of(name: &str) -> (r: Option<String>)
    ensures
        r matches Some(x) ==> extension_spec(name@) == Some(x@),
        r is None ==> extension_spec(name@) is None,
{
    let cs = chars_of(name);
    let n = cs.len();
    if n == 2 && cs[0] == '.' && cs[1] == '.' {
        assert(name@ =~= seq!['.', '.']);
        return None;
    }
    let mut i: usize = n;
    while i > 0 && cs[i - 1] != '.'
        invariant
            i <= n,
            n == cs@.len(),
            cs@ == name@,
            forall|j: int| i <= j < n ==> cs@[j] != '.',
        decreases i,
    {
        i = i - 1;
    }
    if i <= 1 {
        assert(!exists|k: int| 0 < k < name@.len() && name@[k] == '.' && (forall|j: int|
            k < j < name@.len() ==> name@[j] != '.')) by {
            if i == 1 {
                assert forall|k: int| 0 < k < name@.len() && name@[k] == '.' implies
                    exists|j: int| k < j < name@.len() && name@[j] == '.' by {
                    assert(false);
                }
            }
        }
        return None;
    }
    let d = i - 1;
    assert(0 < d < name@.len() && name@[d as int] == '.' && (forall|j: int|
        d < j < name@.len() ==> name@[j] != '.'));
    let ghost k = choose|k: int|
        0 < k < name@.len() && name@[k] == '.' && (forall|j: int| k < j < name@.len() ==> name@[j] != '.');
    assert(k == d) by {
        if k < d {
            assert(name@[d as int] != '.');
        } else if k > d {
            assert(name@[k] != '.');
        }
    }
    Some(string_from_range(&cs, i, n))
}

/// The converted name for the file `name` under `theme`.
pub fn converted_file_name(name: &str, theme: &str) -> (r: String)
    ensures
        r@ == converted_name(name@, theme@),
{
    let mut out = engine_prefix_string();
    push_str(&mut out, theme);
    push_char(&mut out, '-');
    if is_engine_file(name) {
        let cs = chars_of(name);
        proof {
            reveal_strlit("wallow-");
        }
        push_range(&mut out, &cs, 7, cs.len());
        assert(cs@.subrange(7, cs@.len() as int) =~= name@.skip(engine_prefix().len() as int));
    } else {
        push_str(&mut out, name);
    }
    assert(seq!['-'] =~= Seq::<char>::empty().push('-'));
    out
}

/// Converting a file that already carries the engine prefix keeps that prefix
/// once: the theme is spliced in right after it.
pub proof fn lemma_prefix_kept_once(rest: Seq<char>, theme: Seq<char>)
    ensures
        converted_name(engine_prefix() + rest, theme) == engine_prefix() + theme + seq!['-'] + rest,
{
    let name = engine_prefix() + rest;
    assert(name.subrange(0, engine_prefix().len() as int) =~= engine_prefix());
    assert(name.skip(engine_prefix().len() as int) =~= rest);
}

} // verus!
