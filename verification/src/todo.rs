//! The page that the note server answers with: the lines of the note, less
//! blank lines, with links replaced by their text, filtered by where they
//! stand relative to the `# TODO` section and by whether their task is
//! done, and with list markers redrawn for the display.
use vstd::prelude::*;
use crate::chars::{chars_of, string_of};
use crate::lines::{expand_tabs, expand_tabs_exec, has_content, has_content_exec, lines, split_lines};
use crate::links::{strip_links, strip_links_exec};
use crate::markdown::{
    find_marker, has_marker, is_header, is_header_exec, is_todo_header, is_todo_header_exec,
    rewrite_bullet, rewrite_bullet_exec, task_is_open, task_is_open_exec,
};

verus! {

/// Where the filter stands relative to the `# TODO` section.
#[derive(PartialEq, Eq, Structural, Clone, Copy, Debug)]
pub enum UnderTodoCase {
    /// Before the `# TODO` header.
    No,
    /// Inside the section the `# TODO` header opens.
    Yes,
    /// After that section: the header that followed it closed it.
    Past,
}

/// What the filter remembers from the lines it has seen.
#[derive(PartialEq, Eq, Structural, Clone, Copy, Debug)]
pub struct FilterState {
    pub under_todo_header: UnderTodoCase,
    /// Some line before the `# TODO` header was an item that is shown.
    pub items_before_todo: bool,
}

/// The state before the first line.
pub open spec fn initial_state() -> FilterState {
    FilterState { under_todo_header: UnderTodoCase::No, items_before_todo: false }
}

/// The filter's decision on line `l` (links already replaced) in state
/// `st`: the next state, and whether `l` is shown.
pub open spec fn step(st: FilterState, l: Seq<char>) -> (FilterState, bool) {
    if st.under_todo_header == UnderTodoCase::Past {
        (st, false)
    } else if is_header(l) {
        if st.under_todo_header == UnderTodoCase::Yes {
            (
                FilterState {
                    under_todo_header: UnderTodoCase::Past,
                    items_before_todo: st.items_before_todo,
                },
                false,
            )
        } else if is_todo_header(l) {
            (
                FilterState {
                    under_todo_header: UnderTodoCase::Yes,
                    items_before_todo: st.items_before_todo,
                },
                st.items_before_todo,
            )
        } else {
            (st, true)
        }
    } else if has_marker(l) {
        let open = task_is_open(l);
        (
            FilterState {
                under_todo_header: st.under_todo_header,
                items_before_todo: st.items_before_todo || open,
            },
            open,
        )
    } else {
        (
            FilterState {
                under_todo_header: st.under_todo_header,
                items_before_todo: st.items_before_todo || st.under_todo_header
                    == UnderTodoCase::No,
            },
            true,
        )
    }
}

impl FilterState {
    /// The state before the first line.
    pub fn new() -> (st: FilterState)
        ensures
            st == initial_state(),
    {
        FilterState { under_todo_header: UnderTodoCase::No, items_before_todo: false }
    }

    /// Decides whether `line` (links already replaced) is shown, and moves
    /// to the next state (see `step`).
    pub fn filter_line(&mut self, line: &Vec<char>) -> (shown: bool)
        ensures
            (*final(self), shown) == step(*old(self), line@),
    {
        if self.under_todo_header == UnderTodoCase::Past {
            return false;
        }
        if is_header_exec(line) {
            if self.under_todo_header == UnderTodoCase::Yes {
                self.under_todo_header = UnderTodoCase::Past;
                false
            } else if is_todo_header_exec(line) {
                self.under_todo_header = UnderTodoCase::Yes;
                self.items_before_todo
            } else {
                true
            }
        } else {
            match find_marker(line) {
                Some(q) => {
                    let open = task_is_open_exec(line, q);
                    if !self.items_before_todo {
                        self.items_before_todo = open;
                    }
                    open
                },
                None => {
                    if !self.items_before_todo && self.under_todo_header == UnderTodoCase::No {
                        self.items_before_todo = true;
                    }
                    true
                },
            }
        }
    }
}

/// One line more: a blank line is skipped; any other has its links replaced,
/// goes through the filter and, where shown, is redrawn for the display.
pub open spec fn show_line(acc: (FilterState, Seq<Seq<char>>), l: Seq<char>) -> (
    FilterState,
    Seq<Seq<char>>,
) {
    if !has_content(l) {
        acc
    } else {
        let m = strip_links(l);
        let (st, shown) = step(acc.0, m);
        (st, if shown {
            acc.1.push(rewrite_bullet(m))
        } else {
            acc.1
        })
    }
}

/// The filter's state after the lines `ls`, and the lines it shows.
pub open spec fn show_lines(ls: Seq<Seq<char>>) -> (FilterState, Seq<Seq<char>>)
    decreases ls.len(),
{
    if ls.len() == 0 {
        (initial_state(), seq![])
    } else {
        show_line(show_lines(ls.drop_last()), ls.last())
    }
}

/// The lines `ls` joined by line feeds.
pub open spec fn join_lines(ls: Seq<Seq<char>>) -> Seq<char>
    decreases ls.len(),
{
    if ls.len() == 0 {
        seq![]
    } else if ls.len() == 1 {
        ls[0]
    } else {
        join_lines(ls.drop_last()) + seq!['\n'] + ls.last()
    }
}

/// The page for a note whose text is `text`.
pub open spec fn todo_page(text: Seq<char>) -> Seq<char> {
    join_lines(show_lines(lines(expand_tabs(text))).1)
}

/// The characters of `ls` joined by line feeds.
pub fn join_lines_exec(ls: &Vec<Vec<char>>) -> (out: Vec<char>)
    ensures
        out@ == join_lines(ls.deep_view()),
{
    let mut out: Vec<char> = Vec::new();
    for i in 0..ls.len()
        invariant
            out@ == join_lines(ls.deep_view().take(i as int)),
    {
        let ghost before = ls.deep_view().take(i as int);
        assert(ls.deep_view().take(i + 1).drop_last() == before);
        assert(ls@[i as int].deep_view() =~= ls@[i as int]@);
        if i > 0 {
            out.push('\n');
        }
        let line = &ls[i];
        for k in 0..line.len()
            invariant
                out@ == (if i > 0 {
                    join_lines(before) + seq!['\n']
                } else {
                    join_lines(before)
                }) + line@.take(k as int),
        {
            out.push(line[k]);
            assert(line@.take(k + 1) == line@.take(k as int).push(line@[k as int]));
        }
        assert(line@.take(line.len() as int) == line@);
    }
    assert(ls.deep_view().take(ls.len() as int) == ls.deep_view());
    out
}

/// The page for a note whose text is `contents`: the note's lines, filtered
/// and redrawn as `todo_page` says, joined by line feeds.
pub fn handler(contents: &str) -> (page: String)
    ensures
        page@ == todo_page(contents@),
{
    let text = chars_of(contents);
    let text = expand_tabs_exec(&text);
    let all = split_lines(&text);
    let ghost ls = all.deep_view();
    let mut state = FilterState::new();
    let mut shown: Vec<Vec<char>> = Vec::new();
    for i in 0..all.len()
        invariant
            ls == all.deep_view(),
            (state, shown.deep_view()) == show_lines(ls.take(i as int)),
    {
        assert(ls.take(i + 1).drop_last() == ls.take(i as int));
        assert(all@[i as int].deep_view() =~= all@[i as int]@);
        let line = &all[i];
        if has_content_exec(line) {
            let m = strip_links_exec(line);
            if state.filter_line(&m) {
                let redrawn = rewrite_bullet_exec(&m);
                let ghost before = shown.deep_view();
                shown.push(redrawn);
                assert(redrawn.deep_view() =~= redrawn@);
                assert(shown.deep_view() =~= before.push(redrawn@));
            }
        }
    }
    assert(ls.take(all.len() as int) == ls);
    let out = join_lines_exec(&shown);
    string_of(&out)
}

/// `l` is a line that the filter shows as an item while it is before the
/// `# TODO` header: a line with content that, links replaced, is no header
/// and either no list item or a task still to do.
pub open spec fn shows_item(l: Seq<char>) -> bool {
    let m = strip_links(l);
    &&& has_content(l)
    &&& !is_header(m)
    &&& (!has_marker(m) || task_is_open(m))
}

/// Once the section under `# TODO` is closed by the next header, no later
/// line of the note is shown and the filter's state no longer changes.
pub proof fn lemma_past_is_final(a: Seq<Seq<char>>, b: Seq<Seq<char>>)
    requires
        show_lines(a).0.under_todo_header == UnderTodoCase::Past,
    ensures
        show_lines(a + b) == show_lines(a),
    decreases b.len(),
{
    if b.len() == 0 {
        assert(a + b == a);
    } else {
        assert((a + b).drop_last() == a + b.drop_last());
        assert((a + b).last() == b.last());
        lemma_past_is_final(a, b.drop_last());
    }
}

/// A header right after the `# TODO` section has begun closes it, and is
/// not shown.
pub proof fn lemma_next_header_closes_section(st: FilterState, l: Seq<char>)
    requires
        st.under_todo_header == UnderTodoCase::Yes,
        is_header(l),
    ensures
        step(st, l) == (
            FilterState {
                under_todo_header: UnderTodoCase::Past,
                items_before_todo: st.items_before_todo,
            },
            false,
        ),
{
}

/// A task that is done (its checkbox holds a mark that is not blank) is
/// never shown, and does not change the filter's state.
pub proof fn lemma_done_task_hidden(st: FilterState, l: Seq<char>)
    requires
        !is_header(l),
        has_marker(l),
        !task_is_open(l),
    ensures
        step(st, l) == (st, false),
{
}

/// The filter never goes back to the lines before `# TODO`.
proof fn lemma_step_leaves_no(st: FilterState, l: Seq<char>)
    requires
        st.under_todo_header != UnderTodoCase::No,
    ensures
        step(st, l).0.under_todo_header != UnderTodoCase::No,
{
}

/// As long as the filter is before the `# TODO` header, it remembers that
/// items came before it exactly when some line so far is an item it shows.
pub proof fn lemma_items_before_todo(ls: Seq<Seq<char>>)
    requires
        show_lines(ls).0.under_todo_header == UnderTodoCase::No,
    ensures
        show_lines(ls).0.items_before_todo <==> exists|i: int|
            0 <= i < ls.len() && #[trigger] shows_item(ls[i]),
    decreases ls.len(),
{
    if ls.len() > 0 {
        let p = ls.drop_last();
        let l = ls.last();
        if show_lines(p).0.under_todo_header != UnderTodoCase::No {
            if has_content(l) {
                lemma_step_leaves_no(show_lines(p).0, strip_links(l));
            }
        } else {
            lemma_items_before_todo(p);
            assert forall|i: int| 0 <= i < p.len() implies #[trigger] p[i] == ls[i] by {}
            if shows_item(l) {
                assert(shows_item(ls[ls.len() - 1]));
            }
            if exists|i: int| 0 <= i < ls.len() && #[trigger] shows_item(ls[i]) {
                let i = choose|i: int| 0 <= i < ls.len() && #[trigger] shows_item(ls[i]);
                if i < p.len() {
                    assert(shows_item(p[i]));
                }
            }
        }
    }
}

/// The `# TODO` header is shown exactly when some item before it is shown.
pub proof fn lemma_todo_header_shown_iff_items_before(ls: Seq<Seq<char>>, l: Seq<char>)
    requires
        show_lines(ls).0.under_todo_header == UnderTodoCase::No,
        has_content(l),
        is_todo_header(strip_links(l)),
    ensures
        show_lines(ls.push(l)).0.under_todo_header == UnderTodoCase::Yes,
        show_lines(ls.push(l)).1 == (if exists|i: int|
            0 <= i < ls.len() && #[trigger] shows_item(ls[i]) {
            show_lines(ls).1.push(rewrite_bullet(strip_links(l)))
        } else {
            show_lines(ls).1
        }),
{
    lemma_items_before_todo(ls);
    assert(ls.push(l).drop_last() == ls);
}

/// The filter's state and shown lines after going on from `acc` through the
/// lines `ls`.
pub open spec fn show_from(acc: (FilterState, Seq<Seq<char>>), ls: Seq<Seq<char>>) -> (
    FilterState,
    Seq<Seq<char>>,
)
    decreases ls.len(),
{
    if ls.len() == 0 {
        acc
    } else {
        show_line(show_from(acc, ls.drop_last()), ls.last())
    }
}

/// The lines `a + b` give what `b` gives from where `a` left the filter.
pub proof fn lemma_show_lines_concat(a: Seq<Seq<char>>, b: Seq<Seq<char>>)
    ensures
        show_lines(a + b) == show_from(show_lines(a), b),
    decreases b.len(),
{
    if b.len() == 0 {
        assert(a + b == a);
    } else {
        assert((a + b).drop_last() == a + b.drop_last());
        assert((a + b).last() == b.last());
        lemma_show_lines_concat(a, b.drop_last());
    }
}

/// A line of blanks anywhere in the note changes nothing on the page.
pub proof fn lemma_blank_line_ignored(a: Seq<Seq<char>>, l: Seq<char>, b: Seq<Seq<char>>)
    requires
        !has_content(l),
    ensures
        show_lines(a.push(l) + b) == show_lines(a + b),
{
    assert(a.push(l).drop_last() == a);
    lemma_show_lines_concat(a.push(l), b);
    lemma_show_lines_concat(a, b);
}

/// A done task anywhere in the note changes nothing on the page.
pub proof fn lemma_done_task_line_ignored(a: Seq<Seq<char>>, l: Seq<char>, b: Seq<Seq<char>>)
    requires
        has_content(l),
        !is_header(strip_links(l)),
        has_marker(strip_links(l)),
        !task_is_open(strip_links(l)),
    ensures
        show_lines(a.push(l) + b) == show_lines(a + b),
{
    assert(a.push(l).drop_last() == a);
    lemma_done_task_hidden(show_lines(a).0, strip_links(l));
    lemma_show_lines_concat(a.push(l), b);
    lemma_show_lines_concat(a, b);
}

/// A header inside the `# TODO` section closes it: the page shows nothing
/// of that header or of any line after it.
pub proof fn lemma_closing_header_cuts_off(a: Seq<Seq<char>>, l: Seq<char>, b: Seq<Seq<char>>)
    requires
        show_lines(a).0.under_todo_header == UnderTodoCase::Yes,
        has_content(l),
        is_header(strip_links(l)),
    ensures
        show_lines(a.push(l) + b).0.under_todo_header == UnderTodoCase::Past,
        show_lines(a.push(l) + b).1 == show_lines(a).1,
{
    assert(a.push(l).drop_last() == a);
    lemma_past_is_final(a.push(l), b);
}

} // verus!
