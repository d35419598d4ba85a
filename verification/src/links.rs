//! Markdown links `[text](target)` in a line of the note give way to their
//! text. A link is `[`, text without `]`, `](`, a target without `)`, and
//! `)`; links are replaced from left to right, and the search goes on after
//! each replaced link.
use vstd::prelude::*;

verus! {

/// `s` opens with a link whose `]` stands at `mid` and whose closing `)` at
/// `close`.
pub open spec fn link_at(s: Seq<char>, mid: int, close: int) -> bool {
    &&& 0 < mid
    &&& mid + 1 < close < s.len()
    &&& s[0] == '['
    &&& s[mid] == ']'
    &&& s[mid + 1] == '('
    &&& s[close] == ')'
    &&& forall|k: int| 0 < k < mid ==> s[k] != ']'
    &&& forall|k: int| mid + 1 < k < close ==> s[k] != ')'
}

/// `s` opens with a link.
pub open spec fn opens_with_link(s: Seq<char>) -> bool {
    exists|mid: int, close: int| link_at(s, mid, close)
}

/// `s` with each link replaced by its text.
pub open spec fn strip_links(s: Seq<char>) -> Seq<char>
    decreases s.len(),
{
    if s.len() == 0 {
        seq![]
    } else if opens_with_link(s) {
        let (mid, close) = choose|mid: int, close: int| link_at(s, mid, close);
        s.subrange(1, mid) + strip_links(s.skip(close + 1))
    } else {
        seq![s[0]] + strip_links(s.skip(1))
    }
}

/// A line opens with at most one link: its `]` and `)` are the first ones.
pub proof fn lemma_link_unique(s: Seq<char>, m1: int, c1: int, m2: int, c2: int)
    requires
        link_at(s, m1, c1),
        link_at(s, m2, c2),
    ensures
        m1 == m2,
        c1 == c2,
{
    if m1 < m2 {
        assert(s[m1] != ']');
    }
    if m2 < m1 {
        assert(s[m2] != ']');
    }
    if c1 < c2 {
        assert(s[c1] != ')');
    }
    if c2 < c1 {
        assert(s[c2] != ')');
    }
}

/// The first index at or after `from` where `s` holds `c`.
fn find_from(s: &Vec<char>, c: char, from: usize) -> (r: Option<usize>)
    requires
        from <= s.len(),
    ensures
        match r {
            Some(j) => from <= j < s.len() && s@[j as int] == c && forall|k: int|
                from <= k < j ==> s@[k] != c,
            None => forall|k: int| from <= k < s.len() ==> s@[k] != c,
        },
{
    let mut j = from;
    while j < s.len()
        invariant
            from <= j <= s.len(),
            forall|k: int| from <= k < j ==> s@[k] != c,
        decreases s.len() - j,
    {
        if s[j] == c {
            return Some(j);
        }
        j += 1;
    }
    None
}

/// `l` with each link replaced by its text (see `strip_links`).
pub fn strip_links_exec(l: &Vec<char>) -> (out: Vec<char>)
    ensures
        out@ == strip_links(l@),
{
    let mut out: Vec<char> = Vec::new();
    let mut i: usize = 0;
    assert(l@.skip(0) == l@);
    while i < l.len()
        invariant
            i <= l.len(),
            strip_links(l@) == out@ + strip_links(l@.skip(i as int)),
        decreases l.len() - i,
    {
        let ghost t = l@.skip(i as int);
        let mut link: Option<(usize, usize)> = None;
        if l[i] == '[' {
            match find_from(l, ']', i + 1) {
                Some(j) => {
                    if j + 1 < l.len() && l[j + 1] == '(' {
                        match find_from(l, ')', j + 2) {
                            Some(k) => {
                                link = Some((j, k));
                            },
                            None => {
                                assert forall|m: int, c: int| !link_at(t, m, c) by {
                                    if link_at(t, m, c) {
                                        if m < j - i {
                                            assert(l@[i + m] != ']');
                                        }
                                        if m > j - i {
                                            assert(t[j - i] != ']');
                                        }
                                        assert(l@[i + c] == ')');
                                    }
                                }
                            },
                        }
                    } else {
                        assert forall|m: int, c: int| !link_at(t, m, c) by {
                            if link_at(t, m, c) {
                                if m < j - i {
                                    assert(l@[i + m] != ']');
                                }
                                if m > j - i {
                                    assert(t[j - i] != ']');
                                }
                            }
                        }
                    }
                },
                None => {
                    assert forall|m: int, c: int| !link_at(t, m, c) by {
                        if link_at(t, m, c) {
                            assert(l@[i + m] == ']');
                        }
                    }
                },
            }
        }
        match link {
            Some((j, k)) => {
                let ghost m = j - i;
                let ghost c = k - i;
                assert(link_at(t, m as int, c as int));
                let ghost (m2, c2) = choose|m2: int, c2: int| link_at(t, m2, c2);
                proof {
                    lemma_link_unique(t, m as int, c as int, m2, c2);
                }
                assert(t.skip(c + 1) == l@.skip(k + 1));
                let ghost before = out@;
                let mut x = i + 1;
                while x < j
                    invariant
                        i + 1 <= x <= j,
                        j < l.len(),
                        out@ == before + l@.subrange(i + 1, x as int),
                    decreases j - x,
                {
                    out.push(l[x]);
                    assert(l@.subrange(i + 1, x + 1) == l@.subrange(i + 1, x as int).push(
                        l@[x as int],
                    ));
                    x += 1;
                }
                assert(t.subrange(1, m as int) == l@.subrange(i + 1, j as int));
                assert(strip_links(t) == t.subrange(1, m as int) + strip_links(t.skip(c + 1)));
                i = k + 1;
            },
            None => {
                assert(!opens_with_link(t));
                assert(t.skip(1) == l@.skip(i + 1));
                out.push(l[i]);
                i += 1;
            },
        }
    }
    assert(l@.skip(i as int).len() == 0);
    out
}

} // verus!
