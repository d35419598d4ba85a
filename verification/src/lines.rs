//! From the text of a note to its lines: tabs become two spaces, the text is
//! cut at line feeds (a carriage return before a line feed goes with it), and
//! blank lines are recognised.
use vstd::prelude::*;
use crate::chars::{all_white_space, is_white_space, white_space};

verus! {

/// Each tab of `s` replaced by two spaces.
pub open spec fn expand_tabs(s: Seq<char>) -> Seq<char>
    decreases s.len(),
{
    if s.len() == 0 {
        seq![]
    } else if s.last() == '\t' {
        expand_tabs(s.drop_last()) + seq![' ', ' ']
    } else {
        expand_tabs(s.drop_last()).push(s.last())
    }
}

/// The pieces of `s` between line feeds, as `split('\n')` gives them: one
/// more piece than `s` has line feeds.
pub open spec fn split_lf(s: Seq<char>) -> Seq<Seq<char>>
    decreases s.len(),
{
    if s.len() == 0 {
        seq![seq![]]
    } else {
        let p = split_lf(s.drop_last());
        if s.last() == '\n' {
            p.push(seq![])
        } else {
            p.update(p.len() - 1, p.last().push(s.last()))
        }
    }
}

/// `l` without one trailing carriage return, if it has one.
pub open spec fn strip_cr(l: Seq<char>) -> Seq<char> {
    if l.len() > 0 && l.last() == '\r' {
        l.drop_last()
    } else {
        l
    }
}

/// The lines of `s`, as `str::lines` gives them: the pieces between line
/// feeds, each piece that a line feed ends losing one carriage return before
/// it, and the last piece left out when it is empty.
pub open spec fn lines(s: Seq<char>) -> Seq<Seq<char>> {
    let p = split_lf(s);
    let ended = Seq::new((p.len() - 1) as nat, |i: int| strip_cr(p[i]));
    if p.last().len() == 0 {
        ended
    } else {
        ended.push(p.last())
    }
}

/// `split_lf` always yields at least one piece.
pub proof fn lemma_split_lf_nonempty(s: Seq<char>)
    ensures
        split_lf(s).len() >= 1,
    decreases s.len(),
{
    if s.len() > 0 {
        lemma_split_lf_nonempty(s.drop_last());
    }
}

/// The characters of `v` with every tab replaced by two spaces.
pub fn expand_tabs_exec(v: &Vec<char>) -> (out: Vec<char>)
    ensures
        out@ == expand_tabs(v@),
{
    let mut out: Vec<char> = Vec::new();
    for i in 0..v.len()
        invariant
            out@ == expand_tabs(v@.take(i as int)),
    {
        assert(v@.take(i + 1).drop_last() == v@.take(i as int));
        if v[i] == '\t' {
            out.push(' ');
            out.push(' ');
            assert(out@ == expand_tabs(v@.take(i as int)) + seq![' ', ' ']);
        } else {
            out.push(v[i]);
        }
    }
    assert(v@.take(v.len() as int) == v@);
    out
}

/// Removes one trailing carriage return from `l`, if it has one.
fn strip_cr_exec(l: &mut Vec<char>)
    ensures
        final(l)@ == strip_cr(old(l)@),
{
    let n = l.len();
    if n > 0 && l[n - 1] == '\r' {
        l.pop();
    }
}

/// The lines of `v` (see `lines`).
pub fn split_lines(v: &Vec<char>) -> (out: Vec<Vec<char>>)
    ensures
        out.deep_view() == lines(v@),
{
    let mut done: Vec<Vec<char>> = Vec::new();
    let mut cur: Vec<char> = Vec::new();
    for i in 0..v.len()
        invariant
            split_lf(v@.take(i as int)).len() == done.len() + 1,
            forall|j: int|
                0 <= j < done.len() ==> #[trigger] done@[j]@ == strip_cr(
                    split_lf(v@.take(i as int))[j],
                ),
            cur@ == split_lf(v@.take(i as int)).last(),
    {
        proof {
            lemma_split_lf_nonempty(v@.take(i as int));
        }
        assert(v@.take(i + 1).drop_last() == v@.take(i as int));
        assert(v@.take(i + 1).last() == v@[i as int]);
        if v[i] == '\n' {
            let mut line = cur;
            strip_cr_exec(&mut line);
            done.push(line);
            cur = Vec::new();
        } else {
            cur.push(v[i]);
        }
    }
    assert(v@.take(v.len() as int) == v@);
    proof {
        lemma_split_lf_nonempty(v@);
    }
    if cur.len() > 0 {
        done.push(cur);
    }
    assert forall|j: int| 0 <= j < done.len() implies #[trigger] done.deep_view()[j] == lines(
        v@,
    )[j] by {
        assert(done@[j].deep_view() =~= done@[j]@);
    }
    assert(done.deep_view() =~= lines(v@));
    done
}

/// `l` has a character that is not white space (`!l.trim().is_empty()`).
pub open spec fn has_content(l: Seq<char>) -> bool {
    !all_white_space(l)
}

/// Decides `has_content`.
pub fn has_content_exec(l: &Vec<char>) -> (b: bool)
    ensures
        b == has_content(l@),
{
    for i in 0..l.len()
        invariant
            forall|j: int| 0 <= j < i ==> is_white_space(#[trigger] l@[j]),
    {
        if !white_space(l[i]) {
            return true;
        }
    }
    false
}

} // verus!
