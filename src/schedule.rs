//! The periodic job: which schedule expression applies, the job line, and the
//! idempotent rewrite of the scheduler's job table.

use vstd::prelude::*;
use vstd::string::*;
use crate::error::EngineError;
use crate::text::{
    contains, has_substring, lemma_split_after_separator, lemma_split_pieces_lack, lemma_split_whole,
    lines, lines_of, occurs_at, push_char, push_str, split_on, strip_cr,
};

verus! {

/// A job-table line that belongs to this tool's periodic job: it names both
/// the tool and its schedule subcommand.
pub open spec fn is_job_line(l: Seq<char>) -> bool {
    contains(l, "wallow"@) && contains(l, "schedule"@)
}

/// The test that a line is to be kept, as a function value.
pub open spec fn keep_pred() -> spec_fn(Seq<char>) -> bool {
    |l: Seq<char>| !is_job_line(l)
}

/// The test `is_job_line` as a function value.
pub open spec fn job_pred() -> spec_fn(Seq<char>) -> bool {
    |l: Seq<char>| is_job_line(l)
}

/// Lines, each followed by a newline.
pub open spec fn join_lines(ls: Seq<Seq<char>>) -> Seq<char>
    decreases ls.len(),
{
    if ls.len() == 0 {
        Seq::empty()
    } else {
        join_lines(ls.drop_last()) + ls.last() + seq!['\n']
    }
}

/// The job table after the rewrite: every line of this tool's job removed, the
/// other lines kept in order, and `entry` appended as the last line.
pub open spec fn rewritten(table: Seq<char>, entry: Seq<char>) -> Seq<char> {
    join_lines(lines_of(table).filter(keep_pred()).push(entry))
}

/// The schedule expression: the one given, else the stored one.
pub fn cron_to_use(given: Option<&str>, stored: Option<&str>) -> (r: Result<String, EngineError>)
    ensures
        given matches Some(g) ==> (r matches Ok(c) && c@ == g@),
        given is None ==> match stored {
            Some(s) => (r matches Ok(c) && c@ == s@),
            None => r matches Err(EngineError::MissingCronExpression),
        },
{
    match given {
        Some(g) => Ok(String::from_str(g)),
        None => match stored {
            Some(s) => Ok(String::from_str(s)),
            None => Err(EngineError::MissingCronExpression),
        },
    }
}

/// The job line: the expression, the program, and the subcommand that runs
/// the job rather than registering it.
pub open spec fn job_entry(cron: Seq<char>, program: Seq<char>) -> Seq<char> {
    cron + " "@ + program + " schedule --run"@
}

/// The job line for `cron` and the program at `program`.
pub fn build_job_entry(cron: &str, program: &str) -> (r: String)
    ensures
        r@ == job_entry(cron@, program@),
{
    let mut out = String::from_str(cron);
    push_str(&mut out, " ");
    push_str(&mut out, program);
    push_str(&mut out, " schedule --run");
    out
}

/// Whether a line belongs to this tool's periodic job.
pub fn job_line(l: &str) -> (r: bool)
    ensures
        r == is_job_line(l@),
{
    has_substring(l, "wallow") && has_substring(l, "schedule")
}

/// The job table with this tool's old job lines replaced by `entry`.
pub fn rewrite_job_table(table: &str, entry: &str) -> (r: String)
    ensures
        r@ == rewritten(table@, entry@),
{
    let ls = lines(table);
    let ghost all = ls.deep_view();
    let mut out = String::new();
    let mut i: usize = 0;
    assert(all.subrange(0, 0) =~= Seq::<Seq<char>>::empty());
    proof {
        reveal(Seq::filter);
    }
    assert(out@ =~= join_lines(all.subrange(0, 0).filter(keep_pred())));
    while i < ls.len()
        invariant
            i <= ls@.len(),
            all == ls.deep_view(),
            out@ == join_lines(all.subrange(0, i as int).filter(keep_pred())),
        decreases ls@.len() - i,
    {
        let ghost next = all.subrange(0, i + 1);
        assert(next.drop_last() =~= all.subrange(0, i as int));
        assert(next.last() == ls@[i as int]@);
        let ghost before = all.subrange(0, i as int).filter(keep_pred());
        proof {
            reveal(Seq::filter);
        }
        if !job_line(ls[i].as_str()) {
            push_str(&mut out, ls[i].as_str());
            push_char(&mut out, '\n');
            assert(next.filter(keep_pred()) == before.push(ls@[i as int]@));
            assert(before.push(ls@[i as int]@).drop_last() =~= before);
            assert(out@ =~= join_lines(next.filter(keep_pred())));
        } else {
            assert(next.filter(keep_pred()) == before);
        }
        i = i + 1;
    }
    assert(all.subrange(0, ls@.len() as int) =~= all);
    let ghost kept = all.filter(keep_pred());
    push_str(&mut out, entry);
    push_char(&mut out, '\n');
    assert(kept.push(entry@).drop_last() =~= kept);
    assert(out@ =~= join_lines(kept.push(entry@)));
    out
}

/// Joined lines without newlines inside read back as the same lines, each
/// without a trailing carriage return.
proof fn lemma_lines_of_joined(ls: Seq<Seq<char>>)
    requires
        forall|i: int, j: int| 0 <= i < ls.len() && 0 <= j < ls[i].len() ==> #[trigger] ls[i][j] != '\n',
    ensures
        lines_of(join_lines(ls)) == ls.map_values(|l: Seq<char>| strip_cr(l)),
{
    if ls.len() == 0 {
        assert(join_lines(ls) =~= Seq::<char>::empty());
        assert(lines_of(join_lines(ls)) =~= ls.map_values(|l: Seq<char>| strip_cr(l)));
    } else {
        let s = join_lines(ls);
        assert(s.last() == '\n');
        assert(s.drop_last() =~= join_lines(ls.drop_last()) + ls.last());
        lemma_split_joined(ls);
        assert(lines_of(s) =~= ls.map_values(|l: Seq<char>| strip_cr(l)));
    }
}

/// The joined lines but the last, then the last without its newline, split
/// back into the lines.
proof fn lemma_split_joined(ls: Seq<Seq<char>>)
    requires
        ls.len() > 0,
        forall|i: int, j: int| 0 <= i < ls.len() && 0 <= j < ls[i].len() ==> #[trigger] ls[i][j] != '\n',
    ensures
        split_on(join_lines(ls.drop_last()) + ls.last(), '\n') == ls,
    decreases ls.len(),
{
    let n = ls.len();
    assert(forall|j: int| 0 <= j < ls.last().len() ==> ls.last()[j] != '\n') by {
        assert forall|j: int| 0 <= j < ls.last().len() implies ls.last()[j] != '\n' by {
            assert(ls[n - 1][j] != '\n');
        }
    }
    if n == 1 {
        assert(join_lines(ls.drop_last()) =~= Seq::<char>::empty());
        assert(join_lines(ls.drop_last()) + ls.last() =~= ls.last());
        lemma_split_whole(ls.last(), '\n');
        assert(seq![ls.last()] =~= ls);
    } else {
        let front = ls.drop_last();
        lemma_split_joined(front);
        let x = join_lines(front.drop_last()) + front.last();
        assert(join_lines(front) =~= x.push('\n'));
        assert(join_lines(front) + ls.last() =~= x.push('\n') + ls.last());
        lemma_split_after_separator(x, ls.last(), '\n');
        assert(front.push(ls.last()) =~= ls);
    }
}

/// Removing a trailing carriage return cannot create an occurrence.
proof fn lemma_strip_cr_keeps_absence(l: Seq<char>, p: Seq<char>)
    requires
        !contains(l, p),
    ensures
        !contains(strip_cr(l), p),
{
    if l.len() > 0 && l.last() == '\r' {
        assert forall|i: int| !occurs_at(strip_cr(l), p, i) by {
            if occurs_at(strip_cr(l), p, i) {
                assert(l.subrange(i, i + p.len()) =~= strip_cr(l).subrange(i, i + p.len()));
                assert(occurs_at(l, p, i));
            }
        }
    }
}

/// Filtering lines keeps them free of newlines.
proof fn lemma_filter_newline_free(ls: Seq<Seq<char>>, p: spec_fn(Seq<char>) -> bool)
    requires
        forall|i: int, j: int| 0 <= i < ls.len() && 0 <= j < ls[i].len() ==> #[trigger] ls[i][j] != '\n',
    ensures
        forall|i: int, j: int| 0 <= i < ls.filter(p).len() && 0 <= j < ls.filter(p)[i].len() ==>
            #[trigger] ls.filter(p)[i][j] != '\n',
    decreases ls.len(),
{
    reveal(Seq::filter);
    if ls.len() > 0 {
        let front = ls.drop_last();
        assert forall|i: int, j: int| 0 <= i < front.len() && 0 <= j < front[i].len() implies #[trigger] front[i][j] != '\n' by {
            assert(front[i] == ls[i]);
        }
        lemma_filter_newline_free(front, p);
        let f = ls.filter(p);
        let g = front.filter(p);
        assert forall|i: int, j: int| 0 <= i < f.len() && 0 <= j < f[i].len() implies #[trigger] f[i][j] != '\n' by {
            if i < g.len() {
                assert(f[i] == g[i]);
            } else {
                assert(f[i] == ls.last());
                assert(ls[ls.len() - 1][j] != '\n');
            }
        }
    }
}

/// Kept lines read back after the rewrite, then the entry.
proof fn lemma_rewritten_lines(table: Seq<char>, entry: Seq<char>)
    requires
        is_job_line(entry),
        forall|j: int| 0 <= j < entry.len() ==> entry[j] != '\n' && entry[j] != '\r',
    ensures
        ({
            let kept = lines_of(table).filter(keep_pred());
            &&& lines_of(rewritten(table, entry)) == kept.map_values(|l: Seq<char>| strip_cr(l)).push(entry)
            &&& forall|i: int| 0 <= i < kept.len() ==> !is_job_line(#[trigger] kept[i])
            &&& forall|i: int, j: int| 0 <= i < kept.len() && 0 <= j < kept[i].len() ==> #[trigger] kept[i][j] != '\n'
        }),
{
    let ls = lines_of(table);
    let kept = ls.filter(keep_pred());
    assert forall|i: int, j: int| 0 <= i < ls.len() && 0 <= j < ls[i].len() implies #[trigger] ls[i][j] != '\n' by {
        if table.len() > 0 {
            let body = if table.last() == '\n' { table.drop_last() } else { table };
            lemma_split_pieces_lack(body, '\n');
            let pieces = split_on(body, '\n');
            assert(ls[i] == strip_cr(pieces[i]) || ls[i] == pieces[i]);
            if ls[i] == strip_cr(pieces[i]) && pieces[i].len() > 0 && pieces[i].last() == '\r' {
                assert(ls[i][j] == pieces[i][j]);
            } else {
                assert(ls[i][j] == pieces[i][j]);
            }
        }
    }
    lemma_filter_newline_free(ls, keep_pred());
    assert forall|i: int| 0 <= i < kept.len() implies !is_job_line(#[trigger] kept[i]) by {
        ls.lemma_filter_pred(keep_pred(), i);
    }
    let all = kept.push(entry);
    assert forall|i: int, j: int| 0 <= i < all.len() && 0 <= j < all[i].len() implies #[trigger] all[i][j] != '\n' by {
        if i < kept.len() {
            assert(all[i] == kept[i]);
            assert(kept[i][j] != '\n');
        } else {
            assert(all[i] == entry);
        }
    }
    lemma_lines_of_joined(all);
    assert(strip_cr(entry) == entry);
    assert(all.map_values(|l: Seq<char>| strip_cr(l)) =~= kept.map_values(|l: Seq<char>| strip_cr(l)).push(entry));
}

/// Lines that are none of them job lines, then a job line: the job line is
/// the only one, and the others are what is kept.
proof fn lemma_one_job(others: Seq<Seq<char>>, entry: Seq<char>)
    requires
        is_job_line(entry),
        forall|i: int| 0 <= i < others.len() ==> !is_job_line(#[trigger] others[i]),
    ensures
        others.push(entry).filter(job_pred()) == seq![entry],
        others.push(entry).filter(keep_pred()) == others,
    decreases others.len(),
{
    reveal(Seq::filter);
    assert(others.push(entry).drop_last() =~= others);
    lemma_none_job(others);
    assert(seq![entry] =~= Seq::<Seq<char>>::empty().push(entry));
}

proof fn lemma_none_job(others: Seq<Seq<char>>)
    requires
        forall|i: int| 0 <= i < others.len() ==> !is_job_line(#[trigger] others[i]),
    ensures
        others.filter(job_pred()) == Seq::<Seq<char>>::empty(),
        others.filter(keep_pred()) == others,
    decreases others.len(),
{
    reveal(Seq::filter);
    if others.len() > 0 {
        let front = others.drop_last();
        assert forall|i: int| 0 <= i < front.len() implies !is_job_line(#[trigger] front[i]) by {
            assert(front[i] == others[i]);
        }
        lemma_none_job(front);
        assert(!is_job_line(others.last()));
        assert(front.push(others.last()) =~= others);
    }
}

/// Rewriting the job table leaves exactly one job line, the entry, and so
/// does rewriting the result again with the same entry: the rewrite never
/// accumulates entries. The entry must itself be a job line of one line.
pub proof fn lemma_rewrite_leaves_one_job(table: Seq<char>, entry: Seq<char>)
    requires
        is_job_line(entry),
        forall|j: int| 0 <= j < entry.len() ==> entry[j] != '\n' && entry[j] != '\r',
    ensures
        lines_of(rewritten(table, entry)).filter(job_pred()) == seq![entry],
        lines_of(rewritten(rewritten(table, entry), entry)).filter(job_pred()) == seq![entry],
{
    let once = rewritten(table, entry);
    lemma_rewritten_lines(table, entry);
    let kept = lines_of(table).filter(keep_pred());
    let stripped = kept.map_values(|l: Seq<char>| strip_cr(l));
    assert forall|i: int| 0 <= i < stripped.len() implies !is_job_line(#[trigger] stripped[i]) by {
        assert(!is_job_line(kept[i]));
        if !contains(kept[i], "wallow"@) {
            lemma_strip_cr_keeps_absence(kept[i], "wallow"@);
        } else {
            lemma_strip_cr_keeps_absence(kept[i], "schedule"@);
        }
    }
    lemma_one_job(stripped, entry);
    lemma_rewritten_lines(once, entry);
    let kept2 = lines_of(once).filter(keep_pred());
    assert(kept2 == stripped);
    let stripped2 = kept2.map_values(|l: Seq<char>| strip_cr(l));
    assert forall|i: int| 0 <= i < stripped2.len() implies !is_job_line(#[trigger] stripped2[i]) by {
        assert(!is_job_line(kept2[i]));
        if !contains(kept2[i], "wallow"@) {
            lemma_strip_cr_keeps_absence(kept2[i], "wallow"@);
        } else {
            lemma_strip_cr_keeps_absence(kept2[i], "schedule"@);
        }
    }
    lemma_one_job(stripped2, entry);
}

} // verus!
