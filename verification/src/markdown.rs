//! The line grammar of the note: headers (`# TODO` opens the list of things
//! to do, `# ` followed by letters, digits and blanks is any other header),
//! list items (a `-` or `+` and a space, optionally followed by a checkbox
//! `[c]`), and the rewriting of a list item's marker for the display.
use vstd::prelude::*;
use crate::chars::{all_white_space, is_white_space, utf8_len, utf8_width, white_space};

verus! {

/// `l` is the header that opens the list: `# TODO` and nothing after it but
/// white space.
pub open spec fn is_todo_header(l: Seq<char>) -> bool {
    &&& l.len() >= 6
    &&& l.take(6) == seq!['#', ' ', 'T', 'O', 'D', 'O']
    &&& all_white_space(l.skip(6))
}

/// An ASCII letter or digit.
pub open spec fn is_ascii_alphanumeric(c: char) -> bool {
    let u = c as u32;
    ||| 0x30 <= u <= 0x39
    ||| 0x41 <= u <= 0x5a
    ||| 0x61 <= u <= 0x7a
}

/// Decides `is_ascii_alphanumeric`.
pub fn ascii_alphanumeric(c: char) -> (b: bool)
    ensures
        b == is_ascii_alphanumeric(c),
{
    let u = c as u32;
    (0x30 <= u && u <= 0x39) || (0x41 <= u && u <= 0x5a) || (0x61 <= u && u <= 0x7a)
}

/// `l` is a header of letters, digits and blanks: `# ` and then nothing else.
pub open spec fn is_plain_header(l: Seq<char>) -> bool {
    &&& l.len() >= 2
    &&& l[0] == '#'
    &&& l[1] == ' '
    &&& forall|i: int|
        2 <= i < l.len() ==> is_ascii_alphanumeric(#[trigger] l[i]) || is_white_space(l[i])
}

/// `l` is a header the note recognises.
pub open spec fn is_header(l: Seq<char>) -> bool {
    is_todo_header(l) || is_plain_header(l)
}

/// Decides `is_todo_header`.
pub fn is_todo_header_exec(l: &Vec<char>) -> (b: bool)
    ensures
        b == is_todo_header(l@),
{
    if l.len() < 6 || l[0] != '#' || l[1] != ' ' || l[2] != 'T' || l[3] != 'O' || l[4] != 'D'
        || l[5] != 'O' {
        return false;
    }
    assert(l@.take(6) =~= seq!['#', ' ', 'T', 'O', 'D', 'O']);
    for i in 6..l.len()
        invariant
            6 <= l.len(),
            forall|j: int| 6 <= j < i ==> is_white_space(#[trigger] l@[j]),
    {
        if !white_space(l[i]) {
            assert(l@.skip(6)[i - 6] == l@[i as int]);
            return false;
        }
    }
    assert forall|k: int| 0 <= k < l@.skip(6).len() implies is_white_space(
        #[trigger] l@.skip(6)[k],
    ) by {
        assert(l@.skip(6)[k] == l@[k + 6]);
    }
    true
}

/// Decides `is_header`.
pub fn is_header_exec(l: &Vec<char>) -> (b: bool)
    ensures
        b == is_header(l@),
{
    if is_todo_header_exec(l) {
        return true;
    }
    if l.len() < 2 || l[0] != '#' || l[1] != ' ' {
        return false;
    }
    for i in 2..l.len()
        invariant
            2 <= l.len(),
            !is_todo_header(l@),
            forall|j: int|
                2 <= j < i ==> is_ascii_alphanumeric(#[trigger] l@[j]) || is_white_space(l@[j]),
    {
        if !ascii_alphanumeric(l[i]) && !white_space(l[i]) {
            assert(!is_plain_header(l@));
            return false;
        }
    }
    true
}

/// `l` has a list marker at `q`: a `-` or a `+`, then a space.
pub open spec fn marker_at(l: Seq<char>, q: int) -> bool {
    &&& 0 <= q
    &&& q + 1 < l.len()
    &&& (l[q] == '-' || l[q] == '+')
    &&& l[q + 1] == ' '
}

/// `q` is the first list marker of `l`.
pub open spec fn is_first_marker(l: Seq<char>, q: int) -> bool {
    &&& marker_at(l, q)
    &&& forall|p: int| 0 <= p < q ==> !marker_at(l, p)
}

/// `l` is a list item: it has a list marker somewhere.
pub open spec fn has_marker(l: Seq<char>) -> bool {
    exists|q: int| marker_at(l, q)
}

/// The first list marker of `l` (meaningful where `has_marker(l)`).
pub open spec fn first_marker(l: Seq<char>) -> int {
    choose|q: int| is_first_marker(l, q)
}

/// A line has at most one first list marker.
pub proof fn lemma_first_marker_unique(l: Seq<char>, q1: int, q2: int)
    requires
        is_first_marker(l, q1),
        is_first_marker(l, q2),
    ensures
        q1 == q2,
{
    if q1 < q2 {
        assert(!marker_at(l, q1));
    }
    if q2 < q1 {
        assert(!marker_at(l, q2));
    }
}

/// The first list marker of `l`, or `None` where `l` is no list item.
pub fn find_marker(l: &Vec<char>) -> (r: Option<usize>)
    ensures
        r is Some <==> has_marker(l@),
        r matches Some(q) ==> is_first_marker(l@, q as int) && first_marker(l@) == q,
{
    let mut q: usize = 0;
    while q < l.len() && q + 1 < l.len()
        invariant
            forall|p: int| 0 <= p < q ==> !marker_at(l@, p),
        decreases l.len() - q,
    {
        if (l[q] == '-' || l[q] == '+') && l[q + 1] == ' ' {
            assert(is_first_marker(l@, q as int));
            proof {
                lemma_first_marker_unique(l@, q as int, first_marker(l@));
            }
            return Some(q);
        }
        q += 1;
    }
    assert forall|p: int| !marker_at(l@, p) by {
        if p >= q {
            assert(!(p + 1 < l.len()));
        }
    }
    None
}

/// `l` has a checkbox `[c]` right after the list marker at `q`.
pub open spec fn box_at(l: Seq<char>, q: int) -> bool {
    &&& q + 4 < l.len()
    &&& l[q + 2] == '['
    &&& l[q + 3] != '\n'
    &&& l[q + 4] == ']'
}

/// A list item still to do: its first marker has no checkbox, or a checkbox
/// with a blank mark.
pub open spec fn task_is_open(l: Seq<char>) -> bool {
    let q = first_marker(l);
    !box_at(l, q) || is_white_space(l[q + 3])
}

/// Decides `task_is_open` for a list item whose first marker is at `q`.
pub fn task_is_open_exec(l: &Vec<char>, q: usize) -> (b: bool)
    requires
        is_first_marker(l@, q as int),
    ensures
        b == task_is_open(l@),
{
    proof {
        lemma_first_marker_unique(l@, q as int, first_marker(l@));
    }
    let boxed = l.len() - q > 4 && l[q + 2] == '[' && l[q + 3] != '\n' && l[q + 4] == ']';
    !boxed || white_space(l[q + 3])
}

/// `p` is where the white space before the list marker at `q` begins.
pub open spec fn is_indent_start(l: Seq<char>, q: int, p: int) -> bool {
    &&& 0 <= p <= q
    &&& all_white_space(l.subrange(p, q))
    &&& (p == 0 || !is_white_space(l[p - 1]))
}

/// Where the white space before the list marker at `q` begins.
pub open spec fn indent_start(l: Seq<char>, q: int) -> int {
    choose|p: int| is_indent_start(l, q, p)
}

/// The white space before a marker begins at one place only.
pub proof fn lemma_indent_start_unique(l: Seq<char>, q: int, p1: int, p2: int)
    requires
        q <= l.len(),
        is_indent_start(l, q, p1),
        is_indent_start(l, q, p2),
    ensures
        p1 == p2,
{
    if p1 < p2 {
        assert(l.subrange(p1, q)[p2 - 1 - p1] == l[p2 - 1]);
    }
    if p2 < p1 {
        assert(l.subrange(p2, q)[p1 - 1 - p2] == l[p1 - 1]);
    }
}

/// A checkbox followed by a space: the display draws such an item as `[]`.
pub open spec fn bullet_box_at(l: Seq<char>, q: int) -> bool {
    box_at(l, q) && q + 5 < l.len() && l[q + 5] == ' '
}

/// `n` spaces.
pub open spec fn spaces(n: nat) -> Seq<char> {
    Seq::new(n, |i: int| ' ')
}

/// How the display shows line `l`: a list item's white space, marker and
/// checkbox give way to one space for each two bytes of that white space and
/// to `[]` where the item has a checkbox followed by a space, `-` where not.
/// A line without a marker stays as it is.
pub open spec fn rewrite_bullet(l: Seq<char>) -> Seq<char> {
    if !has_marker(l) {
        l
    } else {
        let q = first_marker(l);
        let p = indent_start(l, q);
        let boxed = bullet_box_at(l, q);
        let end = if boxed {
            q + 6
        } else {
            q + 2
        };
        let bullet = if boxed {
            seq!['[', ']']
        } else {
            seq!['-']
        };
        l.take(p) + spaces(utf8_len(l.subrange(p, q)) / 2) + bullet + l.skip(end)
    }
}

/// Number of bytes of the UTF-8 encoding of `c`.
fn utf8_width_exec(c: char) -> (w: usize)
    ensures
        w == utf8_width(c),
        1 <= w <= 4,
{
    let u = c as u32;
    if u < 0x80 {
        1
    } else if u < 0x800 {
        2
    } else if u < 0x10000 {
        3
    } else {
        4
    }
}

/// `utf8_len` of a sequence with one more character.
proof fn lemma_utf8_len_push(s: Seq<char>, c: char)
    ensures
        utf8_len(s.push(c)) == utf8_len(s) + utf8_width(c),
{
    assert(s.push(c).drop_last() == s);
}

/// Appends `l[from..to]` to `out`.
fn push_range(out: &mut Vec<char>, l: &Vec<char>, from: usize, to: usize)
    requires
        from <= to <= l.len(),
    ensures
        final(out)@ == old(out)@ + l@.subrange(from as int, to as int),
{
    let mut x = from;
    while x < to
        invariant
            from <= x <= to <= l.len(),
            out@ == old(out)@ + l@.subrange(from as int, x as int),
        decreases to - x,
    {
        out.push(l[x]);
        assert(l@.subrange(from as int, x + 1) == l@.subrange(from as int, x as int).push(
            l@[x as int],
        ));
        x += 1;
    }
}

/// How the display shows line `l` (see `rewrite_bullet`).
pub fn rewrite_bullet_exec(l: &Vec<char>) -> (out: Vec<char>)
    ensures
        out@ == rewrite_bullet(l@),
{
    let q = match find_marker(l) {
        None => {
            return l.clone();
        },
        Some(q) => q,
    };
    let mut p = q;
    while p > 0 && white_space(l[p - 1])
        invariant
            p <= q < l.len(),
            forall|k: int| p <= k < q ==> is_white_space(#[trigger] l@[k]),
        decreases p,
    {
        p -= 1;
    }
    assert(all_white_space(l@.subrange(p as int, q as int)));
    assert(is_indent_start(l@, q as int, p as int));
    proof {
        lemma_indent_start_unique(l@, q as int, p as int, indent_start(l@, q as int));
    }
    let mut out: Vec<char> = Vec::new();
    push_range(&mut out, l, 0, p);
    assert(l@.subrange(0, p as int) == l@.take(p as int));
    let ghost prefix = out@;
    // one space for each two bytes of the white space
    let mut odd: usize = 0;
    let mut x = p;
    while x < q
        invariant
            p <= x <= q < l.len(),
            odd < 2,
            utf8_len(l@.subrange(p as int, x as int)) == 2 * (out@.len() - prefix.len()) + odd,
            out@ == prefix + spaces((out@.len() - prefix.len()) as nat),
        decreases q - x,
    {
        let w = utf8_width_exec(l[x]);
        assert(l@.subrange(p as int, x + 1) == l@.subrange(p as int, x as int).push(
            l@[x as int],
        ));
        proof {
            lemma_utf8_len_push(l@.subrange(p as int, x as int), l@[x as int]);
        }
        let mut total = odd + w;
        while total >= 2
            invariant
                total <= 5,
                out@ == prefix + spaces((out@.len() - prefix.len()) as nat),
                utf8_len(l@.subrange(p as int, x + 1)) == 2 * (out@.len() - prefix.len())
                    + total,
            decreases total,
        {
            out.push(' ');
            assert(out@ =~= prefix + spaces((out@.len() - prefix.len()) as nat));
            total -= 2;
        }
        odd = total;
        x += 1;
    }
    assert(utf8_len(l@.subrange(p as int, q as int)) / 2 == out@.len() - prefix.len());
    let boxed = l.len() - q > 5 && l[q + 2] == '[' && l[q + 3] != '\n' && l[q + 4] == ']' && l[q
        + 5] == ' ';
    let end;
    if boxed {
        out.push('[');
        out.push(']');
        end = q + 6;
    } else {
        out.push('-');
        end = q + 2;
    }
    let ghost before_rest = out@;
    push_range(&mut out, l, end, l.len());
    assert(l@.subrange(end as int, l.len() as int) == l@.skip(end as int));
    assert(out@ =~= rewrite_bullet(l@));
    out
}

} // verus!
