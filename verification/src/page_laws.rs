//! Laws of the page, stated over the characters of the note's lines: which
//! lines are headers, which tasks are done, and that every line of the note,
//! however many come before it, reaches the filter.
use vstd::prelude::*;
use crate::lines::{expand_tabs, lines, split_lf, strip_cr, lemma_split_lf_nonempty};
use crate::links::{link_at, strip_links};
use crate::markdown::{
    box_at, first_marker, has_marker, is_first_marker, is_header, is_todo_header,
    lemma_first_marker_unique, marker_at, rewrite_bullet, task_is_open,
};
use crate::todo::{
    join_lines, lemma_closing_header_cuts_off, lemma_done_task_line_ignored, show_line,
    show_lines, shows_item, step, todo_page, FilterState, UnderTodoCase,
};

verus! {

/// A line without `(` holds no link, and stays as it is.
pub proof fn lemma_strip_links_without_parens(s: Seq<char>)
    requires
        forall|i: int| 0 <= i < s.len() ==> s[i] != '(',
    ensures
        strip_links(s) == s,
    decreases s.len(),
{
    if s.len() > 0 {
        assert forall|m: int, c: int| !link_at(s, m, c) by {
            if link_at(s, m, c) {
                assert(s[m + 1] == '(');
            }
        }
        let t = s.skip(1);
        assert forall|i: int| 0 <= i < t.len() implies t[i] != '(' by {
            assert(t[i] == s[i + 1]);
        }
        lemma_strip_links_without_parens(t);
        assert(seq![s[0]] + t =~= s);
    }
}

/// A line `# ` followed only by ASCII letters, ASCII digits and white space
/// (Unicode `White_Space`) is a header. Inside the `# TODO` section it
/// closes the section: it is not shown, and neither is any line after it.
pub proof fn lemma_alphanumeric_header_closes_section(
    a: Seq<Seq<char>>,
    l: Seq<char>,
    b: Seq<Seq<char>>,
)
    requires
        l.len() >= 2,
        l[0] == '#',
        l[1] == ' ',
        forall|i: int|
            #![trigger l[i]]
            2 <= i < l.len() ==> {
                let u = l[i] as u32;
                ||| 0x30 <= u <= 0x39
                ||| 0x41 <= u <= 0x5a
                ||| 0x61 <= u <= 0x7a
                ||| 0x09 <= u <= 0x0d
                ||| u == 0x20
                ||| u == 0x85
                ||| u == 0xa0
                ||| u == 0x1680
                ||| 0x2000 <= u <= 0x200a
                ||| u == 0x2028
                ||| u == 0x2029
                ||| u == 0x202f
                ||| u == 0x205f
                ||| u == 0x3000
            },
    ensures
        is_header(l),
        strip_links(l) == l,
        forall|st: FilterState|
            st.under_todo_header == UnderTodoCase::Yes ==> #[trigger] step(st, l) == (
                FilterState {
                    under_todo_header: UnderTodoCase::Past,
                    items_before_todo: st.items_before_todo,
                },
                false,
            ),
        show_lines(a).0.under_todo_header == UnderTodoCase::Yes ==> show_lines(a.push(l)
            + b).1 == show_lines(a).1,
{
    assert forall|i: int| 0 <= i < l.len() implies l[i] != '(' by {
        if i >= 2 {
            let u = l[i] as u32;
            assert(u != 0x28);
        }
    }
    lemma_strip_links_without_parens(l);
    assert(is_header(l));
    assert(!crate::chars::is_white_space(l[0]));
    if show_lines(a).0.under_todo_header == UnderTodoCase::Yes {
        lemma_closing_header_cuts_off(a, l, b);
    }
}

/// A list item whose first marker is followed by a checkbox holding a mark
/// that is not white space is done: it is no open task, and, where it is no
/// header and holds no link, adding it anywhere to a note changes nothing on
/// the page.
pub proof fn lemma_marked_task_is_done(a: Seq<Seq<char>>, l: Seq<char>, q: int, b: Seq<Seq<char>>)
    requires
        0 <= q,
        q + 4 < l.len(),
        l[q] == '-' || l[q] == '+',
        l[q + 1] == ' ',
        forall|p: int| 0 <= p < q ==> !((#[trigger] l[p] == '-' || l[p] == '+') && l[p + 1] == ' '),
        l[q + 2] == '[',
        l[q + 3] != '\n',
        l[q + 4] == ']',
        ({
            let u = l[q + 3] as u32;
            !(0x09 <= u <= 0x0d || u == 0x20 || u == 0x85 || u == 0xa0 || u == 0x1680 || (0x2000
                <= u <= 0x200a) || u == 0x2028 || u == 0x2029 || u == 0x202f || u == 0x205f || u
                == 0x3000)
        }),
    ensures
        has_marker(l),
        !task_is_open(l),
        (l[0] != '#' && forall|i: int| 0 <= i < l.len() ==> l[i] != '(') ==> show_lines(
            a.push(l) + b,
        ) == show_lines(a + b),
{
    assert(marker_at(l, q));
    assert forall|p: int| 0 <= p < q implies !marker_at(l, p) by {}
    assert(is_first_marker(l, q));
    lemma_first_marker_unique(l, q, first_marker(l));
    assert(box_at(l, q));
    if l[0] != '#' && forall|i: int| 0 <= i < l.len() ==> l[i] != '(' {
        lemma_strip_links_without_parens(l);
        assert(!is_todo_header(l)) by {
            if l.len() >= 6 {
                assert(l.take(6)[0] == l[0]);
            }
        }
        assert(!crate::chars::is_white_space(l[q]));
        lemma_done_task_line_ignored(a, l, b);
    }
}

/// A list item whose first marker has no checkbox right after it, or a
/// checkbox holding a white-space mark, is a task still to do.
pub proof fn lemma_unmarked_task_is_open(l: Seq<char>, q: int)
    requires
        0 <= q,
        q + 1 < l.len(),
        l[q] == '-' || l[q] == '+',
        l[q + 1] == ' ',
        forall|p: int| 0 <= p < q ==> !((#[trigger] l[p] == '-' || l[p] == '+') && l[p + 1] == ' '),
        !(q + 4 < l.len() && l[q + 2] == '[' && l[q + 3] != '\n' && l[q + 4] == ']') || ({
            let u = l[q + 3] as u32;
            0x09 <= u <= 0x0d || u == 0x20 || u == 0x85 || u == 0xa0 || u == 0x1680 || (0x2000
                <= u <= 0x200a) || u == 0x2028 || u == 0x2029 || u == 0x202f || u == 0x205f || u
                == 0x3000
        }),
    ensures
        has_marker(l),
        task_is_open(l),
{
    assert(marker_at(l, q));
    assert forall|p: int| 0 <= p < q implies !marker_at(l, p) by {}
    assert(is_first_marker(l, q));
    lemma_first_marker_unique(l, q, first_marker(l));
}

/// `# TODO` followed only by white space is the header that opens the list.
pub proof fn lemma_todo_header_recognised(l: Seq<char>)
    requires
        l.len() >= 6,
        l[0] == '#',
        l[1] == ' ',
        l[2] == 'T',
        l[3] == 'O',
        l[4] == 'D',
        l[5] == 'O',
        forall|i: int|
            #![trigger l[i]]
            6 <= i < l.len() ==> {
                let u = l[i] as u32;
                ||| 0x09 <= u <= 0x0d
                ||| u == 0x20
                ||| u == 0x85
                ||| u == 0xa0
                ||| u == 0x1680
                ||| 0x2000 <= u <= 0x200a
                ||| u == 0x2028
                ||| u == 0x2029
                ||| u == 0x202f
                ||| u == 0x205f
                ||| u == 0x3000
            },
    ensures
        is_todo_header(l),
        is_header(l),
{
    assert(l.take(6) =~= seq!['#', ' ', 'T', 'O', 'D', 'O']);
    assert forall|k: int| 0 <= k < l.skip(6).len() implies crate::chars::is_white_space(
        #[trigger] l.skip(6)[k],
    ) by {
        assert(l.skip(6)[k] == l[k + 6]);
    }
}

/// Tab expansion of a text followed by a line without tabs.
proof fn lemma_expand_tabs_append(t: Seq<char>, l: Seq<char>)
    requires
        forall|i: int| 0 <= i < l.len() ==> l[i] != '\t',
    ensures
        expand_tabs(t + l) == expand_tabs(t) + l,
    decreases l.len(),
{
    if l.len() == 0 {
        assert(t + l == t);
    } else {
        assert((t + l).drop_last() == t + l.drop_last());
        assert((t + l).last() == l.last());
        lemma_expand_tabs_append(t, l.drop_last());
        assert(expand_tabs(t) + l =~= (expand_tabs(t) + l.drop_last()).push(l.last()));
    }
}

/// The pieces of a text followed by characters without line feeds.
proof fn lemma_split_lf_append(e: Seq<char>, l: Seq<char>)
    requires
        forall|i: int| 0 <= i < l.len() ==> l[i] != '\n',
    ensures
        split_lf(e + l).len() == split_lf(e).len(),
        split_lf(e + l) == split_lf(e).update(
            split_lf(e).len() - 1,
            split_lf(e).last() + l,
        ),
    decreases l.len(),
{
    lemma_split_lf_nonempty(e);
    if l.len() == 0 {
        assert(e + l == e);
        assert(split_lf(e).last() + l == split_lf(e).last());
        assert(split_lf(e).update(split_lf(e).len() - 1, split_lf(e).last()) =~= split_lf(e));
    } else {
        assert((e + l).drop_last() == e + l.drop_last());
        assert((e + l).last() == l.last());
        lemma_split_lf_append(e, l.drop_last());
        assert((split_lf(e).last() + l.drop_last()).push(l.last()) =~= split_lf(e).last() + l);
        assert(split_lf(e + l) =~= split_lf(e).update(
            split_lf(e).len() - 1,
            split_lf(e).last() + l,
        ));
    }
}

/// The lines of a text that ends a line, followed by one more line without
/// tabs: the text's lines and that line.
proof fn lemma_lines_append(t: Seq<char>, l: Seq<char>)
    requires
        t.len() == 0 || t.last() == '\n',
        l.len() > 0,
        forall|i: int| 0 <= i < l.len() ==> l[i] != '\n' && l[i] != '\t',
    ensures
        lines(expand_tabs(t + l)) == lines(expand_tabs(t)).push(l),
{
    lemma_expand_tabs_append(t, l);
    let e = expand_tabs(t);
    if t.len() > 0 {
        assert(e.len() > 0 && e.last() == '\n');
    }
    lemma_split_lf_nonempty(e);
    lemma_split_lf_append(e, l);
    let p = split_lf(e);
    assert(p.last().len() == 0);
    assert(p.last() + l =~= l);
    let p2 = split_lf(e + l);
    assert(Seq::new((p2.len() - 1) as nat, |i: int| strip_cr(p2[i])) =~= Seq::new(
        (p.len() - 1) as nat,
        |i: int| strip_cr(p[i]),
    ));
    assert(lines(e + l) =~= lines(e).push(l));
}

/// Every line of the note goes through the filter, however many lines come
/// before it: after a text whose lines leave the `# TODO` section open, a
/// further line that the filter shows as an item ends the page, redrawn.
pub proof fn lemma_every_line_reaches_page(t: Seq<char>, l: Seq<char>)
    requires
        t.len() == 0 || t.last() == '\n',
        forall|i: int| 0 <= i < l.len() ==> l[i] != '\n' && l[i] != '\t',
        show_lines(lines(expand_tabs(t))).0.under_todo_header != UnderTodoCase::Past,
        shows_item(l),
    ensures
        ({
            let before = show_lines(lines(expand_tabs(t))).1;
            let redrawn = rewrite_bullet(strip_links(l));
            todo_page(t + l) == if before.len() == 0 {
                redrawn
            } else {
                todo_page(t) + seq!['\n'] + redrawn
            }
        }),
{
    let ls = lines(expand_tabs(t));
    assert(l.len() > 0);
    lemma_lines_append(t, l);
    assert(ls.push(l).drop_last() == ls);
    assert(show_lines(ls.push(l)) == show_line(show_lines(ls), l));
    let shown = show_lines(ls).1.push(rewrite_bullet(strip_links(l)));
    assert(show_lines(ls.push(l)).1 == shown);
    assert(shown.drop_last() == show_lines(ls).1);
    if show_lines(ls).1.len() == 0 {
        assert(join_lines(shown) == shown[0]);
    }
}

} // verus!
