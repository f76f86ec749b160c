//! The output comparator: decides whether a program's captured stdout
//! matches the expected answer of a test case.
//!
//! Two texts match when, after splitting each into lines, stripping
//! trailing whitespace from every line and dropping trailing blank lines,
//! the two line sequences are identical. Trailing newline-convention
//! noise is tolerated; interior blank lines and leading whitespace are
//! significant.

use vstd::prelude::*;
use vstd::string::*;

verus! {

/// The characters stripped from the end of a line. This is the set that
/// `char::is_whitespace` recognizes (the Unicode `White_Space` property).
pub open spec fn is_judge_whitespace(c: char) -> bool {
    ||| c == ' '
    ||| c == '\t'
    ||| c == '\n'
    ||| c == '\u{b}'
    ||| c == '\u{c}'
    ||| c == '\r'
    ||| c == '\u{85}'
    ||| c == '\u{a0}'
    ||| c == '\u{1680}'
    ||| (0x2000 <= c as u32 && c as u32 <= 0x200a)
    ||| c == '\u{2028}'
    ||| c == '\u{2029}'
    ||| c == '\u{202f}'
    ||| c == '\u{205f}'
    ||| c == '\u{3000}'
}

/// Runtime test for [`is_judge_whitespace`].
pub fn is_whitespace_char(c: char) -> (r: bool)
    ensures
        r == is_judge_whitespace(c),
{
    let u: u32 = c as u32;
    u == 0x20 || (0x9 <= u && u <= 0xd) || u == 0x85 || u == 0xa0 || u == 0x1680 || (0x2000 <= u
        && u <= 0x200a) || u == 0x2028 || u == 0x2029 || u == 0x202f || u == 0x205f || u == 0x3000
}

/// A text, split at every `'\n'`. The result always has at least one
/// (possibly empty) line; the separators are not part of any line.
pub open spec fn split_lines(s: Seq<char>) -> Seq<Seq<char>>
    decreases s.len(),
{
    if s.len() == 0 {
        seq![Seq::<char>::empty()]
    } else if s.last() == '\n' {
        split_lines(s.drop_last()).push(Seq::<char>::empty())
    } else {
        let prev = split_lines(s.drop_last());
        prev.update(prev.len() - 1, prev.last().push(s.last()))
    }
}

pub proof fn lemma_split_lines_nonempty(s: Seq<char>)
    ensures
        split_lines(s).len() >= 1,
    decreases s.len(),
{
    if s.len() > 0 {
        lemma_split_lines_nonempty(s.drop_last());
    }
}

/// A line with its trailing whitespace removed.
pub open spec fn trim_line_end(l: Seq<char>) -> Seq<char>
    decreases l.len(),
{
    if l.len() == 0 {
        l
    } else if is_judge_whitespace(l.last()) {
        trim_line_end(l.drop_last())
    } else {
        l
    }
}

/// A line sequence with its trailing empty lines removed.
pub open spec fn drop_trailing_blank_lines(ls: Seq<Seq<char>>) -> Seq<Seq<char>>
    decreases ls.len(),
{
    if ls.len() == 0 {
        ls
    } else if ls.last().len() == 0 {
        drop_trailing_blank_lines(ls.drop_last())
    } else {
        ls
    }
}

/// The normal form a text is compared under: split into lines, every
/// line stripped of trailing whitespace, trailing blank lines dropped.
pub open spec fn normalized_lines_of(s: Seq<char>) -> Seq<Seq<char>> {
    drop_trailing_blank_lines(split_lines(s).map_values(|l: Seq<char>| trim_line_end(l)))
}

/// Whether two texts are considered the same output.
pub open spec fn outputs_match(expected: Seq<char>, actual: Seq<char>) -> bool {
    normalized_lines_of(expected) == normalized_lines_of(actual)
}

/// The sequence of character sequences a `Vec<Vec<char>>` stands for.
pub open spec fn lines_view(v: Seq<Vec<char>>) -> Seq<Seq<char>> {
    v.map_values(|l: Vec<char>| l@)
}

fn trim_line(l: &Vec<char>) -> (r: Vec<char>)
    ensures
        r@ == trim_line_end(l@),
{
    let mut end: usize = l.len();
    proof {
        assert(l@.take(end as int) =~= l@);
    }
    while end > 0 && is_whitespace_char(l[end - 1])
        invariant
            end <= l.len(),
            trim_line_end(l@) == trim_line_end(l@.take(end as int)),
        decreases end,
    {
        proof {
            assert(l@.take(end as int).drop_last() =~= l@.take(end - 1));
        }
        end = end - 1;
    }
    let mut r: Vec<char> = Vec::new();
    let mut k: usize = 0;
    while k < end
        invariant
            k <= end <= l.len(),
            r@ == l@.take(k as int),
        decreases end - k,
    {
        r.push(l[k]);
        proof {
            assert(l@.take(k as int).push(l@[k as int]) =~= l@.take(k + 1));
        }
        k = k + 1;
    }
    proof {
        if end > 0 {
            assert(trim_line_end(l@.take(end as int)) == l@.take(end as int));
        } else {
            assert(l@.take(0) =~= Seq::<char>::empty());
        }
    }
    r
}

/// Splits a text into raw lines, separated at every `'\n'`.
pub fn split_into_lines(s: &str) -> (r: Vec<Vec<char>>)
    ensures
        lines_view(r@) == split_lines(s@),
{
    let n: usize = s.unicode_len();
    let mut lines: Vec<Vec<char>> = Vec::new();
    let mut cur: Vec<char> = Vec::new();
    let mut i: usize = 0;
    while i < n
        invariant
            i <= n,
            n == s@.len(),
            split_lines(s@.take(i as int)) == lines_view(lines@).push(cur@),
        decreases n - i,
    {
        let c = s.get_char(i);
        proof {
            assert(s@.take(i + 1).drop_last() =~= s@.take(i as int));
            assert(s@.take(i + 1).last() == s@[i as int]);
        }
        if c == '\n' {
            lines.push(cur);
            cur = Vec::new();
            proof {
                assert(lines_view(lines@).push(cur@) =~= lines_view(lines@.drop_last()).push(
                    lines@.last()@,
                ).push(Seq::<char>::empty()));
            }
        } else {
            cur.push(c);
            proof {
                lemma_split_lines_nonempty(s@.take(i as int));
                assert(split_lines(s@.take(i + 1)) =~= lines_view(lines@).push(cur@));
            }
        }
        i = i + 1;
    }
    proof {
        assert(s@.take(n as int) =~= s@);
    }
    lines.push(cur);
    proof {
        assert(lines_view(lines@) =~= lines_view(lines@.drop_last()).push(lines@.last()@));
    }
    lines
}

/// The normal form of a text, as the comparator sees it: lines split at
/// `'\n'`, trailing whitespace stripped from every line, trailing blank
/// lines dropped.
pub fn normalized_lines(s: &str) -> (r: Vec<Vec<char>>)
    ensures
        lines_view(r@) == normalized_lines_of(s@),
{
    let raw = split_into_lines(s);
    let mut trimmed: Vec<Vec<char>> = Vec::new();
    let mut i: usize = 0;
    while i < raw.len()
        invariant
            i <= raw.len(),
            lines_view(raw@) == split_lines(s@),
            trimmed@.len() == i,
            forall|k: int| 0 <= k < i ==> #[trigger] trimmed@[k]@ == trim_line_end(raw@[k]@),
        decreases raw.len() - i,
    {
        let t = trim_line(&raw[i]);
        trimmed.push(t);
        i = i + 1;
    }
    proof {
        assert(lines_view(trimmed@) =~= split_lines(s@).map_values(
            |l: Seq<char>| trim_line_end(l),
        ));
    }
    let mut m: usize = trimmed.len();
    proof {
        assert(lines_view(trimmed@).take(m as int) =~= lines_view(trimmed@));
    }
    while m > 0 && trimmed[m - 1].len() == 0
        invariant
            m <= trimmed.len(),
            lines_view(trimmed@) == split_lines(s@).map_values(|l: Seq<char>| trim_line_end(l)),
            drop_trailing_blank_lines(lines_view(trimmed@)) == drop_trailing_blank_lines(
                lines_view(trimmed@).take(m as int),
            ),
        decreases m,
    {
        proof {
            assert(lines_view(trimmed@).take(m as int).drop_last() =~= lines_view(trimmed@).take(
                m - 1,
            ));
        }
        m = m - 1;
    }
    proof {
        if m > 0 {
            assert(drop_trailing_blank_lines(lines_view(trimmed@).take(m as int)) == lines_view(
                trimmed@,
            ).take(m as int));
        }
    }
    trimmed.truncate(m);
    proof {
        assert(lines_view(trimmed@) =~= normalized_lines_of(s@));
    }
    trimmed
}

fn line_eq(x: &Vec<char>, y: &Vec<char>) -> (r: bool)
    ensures
        r == (x@ == y@),
{
    if x.len() != y.len() {
        return false;
    }
    let mut i: usize = 0;
    while i < x.len()
        invariant
            i <= x.len(),
            x@.len() == y@.len(),
            forall|k: int| 0 <= k < i ==> x@[k] == y@[k],
        decreases x.len() - i,
    {
        if x[i] != y[i] {
            return false;
        }
        i = i + 1;
    }
    proof {
        assert(x@ =~= y@);
    }
    true
}

/// Non-strict check whether two outputs are identical: trailing
/// whitespace on each line and trailing blank lines are ignored.
pub fn compare_output(expected: &str, actual: &str) -> (r: bool)
    ensures
        r == outputs_match(expected@, actual@),
{
    let e = normalized_lines(expected);
    let a = normalized_lines(actual);
    if e.len() != a.len() {
        proof {
            assert(lines_view(e@).len() != lines_view(a@).len());
        }
        return false;
    }
    let mut i: usize = 0;
    while i < e.len()
        invariant
            i <= e.len(),
            e@.len() == a@.len(),
            lines_view(e@) == normalized_lines_of(expected@),
            lines_view(a@) == normalized_lines_of(actual@),
            forall|k: int| 0 <= k < i ==> lines_view(e@)[k] == lines_view(a@)[k],
        decreases e.len() - i,
    {
        if !line_eq(&e[i], &a[i]) {
            proof {
                assert(lines_view(e@)[i as int] != lines_view(a@)[i as int]);
            }
            return false;
        }
        i = i + 1;
    }
    proof {
        assert(lines_view(e@) =~= lines_view(a@));
    }
    true
}

/// Matching is reflexive: every text matches itself.
pub proof fn lemma_compare_reflexive(x: Seq<char>)
    ensures
        outputs_match(x, x),
{
}

proof fn lemma_normalized_push_whitespace(u: Seq<char>, c: char)
    requires
        is_judge_whitespace(c),
    ensures
        normalized_lines_of(u.push(c)) == normalized_lines_of(u),
{
    let f = |l: Seq<char>| trim_line_end(l);
    let su = split_lines(u);
    lemma_split_lines_nonempty(u);
    assert(u.push(c).drop_last() =~= u);
    assert(u.push(c).last() == c);
    if c == '\n' {
        assert(split_lines(u.push(c)) == su.push(Seq::<char>::empty()));
        assert(split_lines(u.push(c)).map_values(f) =~= su.map_values(f).push(
            trim_line_end(Seq::<char>::empty()),
        ));
        assert(su.map_values(f).push(Seq::<char>::empty()).last().len() == 0);
        assert(su.map_values(f).push(Seq::<char>::empty()).drop_last() =~= su.map_values(f));
    } else {
        let ext = su.last().push(c);
        assert(split_lines(u.push(c)) == su.update(su.len() - 1, ext));
        assert(ext.drop_last() =~= su.last());
        assert(trim_line_end(ext) == trim_line_end(su.last()));
        assert(su.update(su.len() - 1, ext).map_values(f) =~= su.map_values(f));
    }
}

/// Appending whitespace — blank lines, spaces, tabs, carriage returns —
/// to the end of a text never changes how it compares: the suffixed text
/// matches the original.
pub proof fn lemma_trailing_whitespace_ignored(s: Seq<char>, t: Seq<char>)
    requires
        forall|i: int| 0 <= i < t.len() ==> is_judge_whitespace(#[trigger] t[i]),
    ensures
        outputs_match(s + t, s),
    decreases t.len(),
{
    if t.len() == 0 {
        assert(s + t =~= s);
    } else {
        let t0 = t.drop_last();
        lemma_trailing_whitespace_ignored(s, t0);
        lemma_normalized_push_whitespace(s + t0, t.last());
        assert(s + t =~= (s + t0).push(t.last()));
    }
}

/// A text holding nothing but whitespace matches the empty text.
pub proof fn lemma_all_whitespace_matches_empty(t: Seq<char>)
    requires
        forall|i: int| 0 <= i < t.len() ==> is_judge_whitespace(#[trigger] t[i]),
    ensures
        outputs_match(t, Seq::<char>::empty()),
{
    lemma_trailing_whitespace_ignored(Seq::<char>::empty(), t);
    assert(Seq::<char>::empty() + t =~= t);
}

} // verus!
