//! The external theme converter: its command-line arguments, where its output
//! goes, and the theme list it prints.

use vstd::prelude::*;
use vstd::string::*;
use crate::pipeline::{conversion_output, conversion_output_path};
use crate::text::{lines, lines_of, trim, trimmed};

verus! {

/// The converter's arguments for `image` and `theme`, with the output path
/// when one is given.
pub open spec fn convert_args_spec(image: Seq<char>, theme: Seq<char>, output: Option<Seq<char>>) -> Seq<Seq<char>> {
    let base = seq!["convert"@, image, "-t"@, theme];
    match output {
        Some(o) => base + seq!["--output"@, o],
        None => base,
    }
}

/// The converter's arguments.
pub fn convert_args(image: &str, theme: &str, output: Option<&str>) -> (r: Vec<String>)
    ensures
        r.deep_view() == convert_args_spec(image@, theme@, crate::config::opt_view(output)),
{
    let mut args: Vec<String> = Vec::new();
    args.push(String::from_str("convert"));
    args.push(String::from_str(image));
    args.push(String::from_str("-t"));
    args.push(String::from_str(theme));
    let ghost base = args.deep_view();
    assert(base =~= seq!["convert"@, image@, "-t"@, theme@]);
    if let Some(o) = output {
        args.push(String::from_str("--output"));
        args.push(String::from_str(o));
        assert(args.deep_view() =~= base + seq!["--output"@, o@]);
    }
    args
}

/// Where a conversion is written: an explicit output that is a directory
/// receives the converted name, any other explicit output is the file itself,
/// and without one the file goes to the converted-wallpaper directory.
pub open spec fn conversion_target_spec(
    image: Seq<char>,
    theme: Seq<char>,
    output: Option<Seq<char>>,
    output_is_dir: bool,
    converted_dir: Seq<char>,
) -> Seq<char> {
    match output {
        Some(o) => if output_is_dir { conversion_output(o, image, theme) } else { o },
        None => conversion_output(converted_dir, image, theme),
    }
}

/// Where a conversion is written.
pub fn conversion_target(
    image: &str,
    theme: &str,
    output: Option<&str>,
    output_is_dir: bool,
    converted_dir: &str,
) -> (r: String)
    ensures
        r@ == conversion_target_spec(image@, theme@, crate::config::opt_view(output), output_is_dir, converted_dir@),
{
    match output {
        Some(o) => {
            if output_is_dir {
                conversion_output_path(o, image, theme)
            } else {
                String::from_str(o)
            }
        },
        None => conversion_output_path(converted_dir, image, theme),
    }
}

/// The theme names in the converter's list output: each line trimmed, blank
/// lines dropped.
pub open spec fn theme_names(ls: Seq<Seq<char>>) -> Seq<Seq<char>>
    decreases ls.len(),
{
    if ls.len() == 0 {
        Seq::empty()
    } else {
        let rest = theme_names(ls.drop_last());
        let t = trim(ls.last());
        if t.len() > 0 { rest.push(t) } else { rest }
    }
}

/// The theme names listed in `output`.
pub fn parse_theme_list(output: &str) -> (r: Vec<String>)
    ensures
        r.deep_view() == theme_names(lines_of(output@)),
{
    let ls = lines(output);
    let ghost all = ls.deep_view();
    let mut out: Vec<String> = Vec::new();
    let mut i: usize = 0;
    assert(all.subrange(0, 0) =~= Seq::<Seq<char>>::empty());
    assert(out.deep_view() =~= theme_names(all.subrange(0, 0)));
    while i < ls.len()
        invariant
            i <= ls@.len(),
            all == ls.deep_view(),
            out.deep_view() == theme_names(all.subrange(0, i as int)),
        decreases ls@.len() - i,
    {
        let ghost next = all.subrange(0, i + 1);
        assert(next.drop_last() =~= all.subrange(0, i as int));
        assert(next.last() == ls@[i as int]@);
        let ghost before = out.deep_view();
        let t = trimmed(ls[i].as_str());
        if t.unicode_len() > 0 {
            out.push(t);
            assert(out.deep_view() =~= before.push(trim(ls@[i as int]@)));
        }
        i = i + 1;
    }
    assert(all.subrange(0, ls@.len() as int) =~= all);
    out
}

} // verus!
