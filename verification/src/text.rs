//! Scanning the text that trust-store commands print.
//!
//! Every function here has a mathematical counterpart on `Seq<char>`, and
//! the executable function is proved to compute it.

use vstd::prelude::*;

verus! {

/// Whether `c` has the Unicode property White_Space.
pub open spec fn is_whitespace(c: char) -> bool {
    let u = c as u32;
    ||| 0x09 <= u <= 0x0D
    ||| u == 0x20
    ||| u == 0x85
    ||| u == 0xA0
    ||| u == 0x1680
    ||| 0x2000 <= u <= 0x200A
    ||| u == 0x2028
    ||| u == 0x2029
    ||| u == 0x202F
    ||| u == 0x205F
    ||| u == 0x3000
}

/// Tells whether `c` is white space.
pub fn whitespace(c: char) -> (b: bool)
    ensures
        b == is_whitespace(c),
{
    let u: u32 = c as u32;
    (0x09 <= u && u <= 0x0D) || u == 0x20 || u == 0x85 || u == 0xA0 || u == 0x1680 || (0x2000 <= u
        && u <= 0x200A) || u == 0x2028 || u == 0x2029 || u == 0x202F || u == 0x205F || u == 0x3000
}

/// A set of characters that a scan looks for.
#[derive(Debug, Clone, Copy, PartialEq, Eq, Structural)]
pub enum CharClass {
    /// The characters with the property White_Space.
    Whitespace,
    /// The double quote alone.
    Quote,
    /// Every character that is not white space.
    Visible,
}

impl CharClass {
    /// Whether `c` belongs to the class.
    pub open spec fn holds(self, c: char) -> bool {
        match self {
            CharClass::Whitespace => is_whitespace(c),
            CharClass::Quote => c == '"',
            CharClass::Visible => !is_whitespace(c),
        }
    }

    /// Tells whether `c` belongs to the class.
    pub fn test(self, c: char) -> (b: bool)
        ensures
            b == self.holds(c),
    {
        match self {
            CharClass::Whitespace => whitespace(c),
            CharClass::Quote => c == '"',
            CharClass::Visible => !whitespace(c),
        }
    }
}

/// `s` without the characters of `class` that it begins with.
pub open spec fn skip_leading(s: Seq<char>, class: CharClass) -> Seq<char>
    decreases s.len(),
{
    if s.len() > 0 && class.holds(s[0]) {
        skip_leading(s.drop_first(), class)
    } else {
        s
    }
}

/// `s` without the characters of `class` that it ends in.
pub open spec fn skip_trailing(s: Seq<char>, class: CharClass) -> Seq<char>
    decreases s.len(),
{
    if s.len() > 0 && class.holds(s.last()) {
        skip_trailing(s.drop_last(), class)
    } else {
        s
    }
}

/// The longest end of `s` made of characters of `class` alone.
pub open spec fn trailing(s: Seq<char>, class: CharClass) -> Seq<char>
    decreases s.len(),
{
    if s.len() > 0 && class.holds(s.last()) {
        trailing(s.drop_last(), class).push(s.last())
    } else {
        Seq::empty()
    }
}

/// `s` with the characters of `class` taken off both ends.
pub open spec fn trimmed(s: Seq<char>, class: CharClass) -> Seq<char> {
    skip_trailing(skip_leading(s, class), class)
}

/// The last run of visible characters in `s`; empty where `s` has none.
pub open spec fn final_word(s: Seq<char>) -> Seq<char> {
    trailing(skip_trailing(s, CharClass::Whitespace), CharClass::Visible)
}

/// Whether `pattern` stands in `s` at position `i`.
pub open spec fn occurs_at(s: Seq<char>, pattern: Seq<char>, i: int) -> bool {
    &&& 0 <= i
    &&& i + pattern.len() <= s.len()
    &&& s.subrange(i, i + pattern.len()) == pattern
}

/// Whether `pattern` stands somewhere in `s`.
pub open spec fn occurs(s: Seq<char>, pattern: Seq<char>) -> bool {
    exists|i: int| occurs_at(s, pattern, i)
}

/// Whether `s` begins with `pattern`.
pub open spec fn begins_with(s: Seq<char>, pattern: Seq<char>) -> bool {
    occurs_at(s, pattern, 0)
}

/// The position of the first line feed in `s`, or the length of `s` where
/// it has none.
pub open spec fn first_break(s: Seq<char>) -> nat
    decreases s.len(),
{
    if s.len() == 0 || s[0] == '\n' {
        0
    } else {
        1 + first_break(s.drop_first())
    }
}

/// `line` without the carriage return that it may end in.
pub open spec fn without_return(line: Seq<char>) -> Seq<char> {
    if line.len() > 0 && line.last() == '\r' {
        line.drop_last()
    } else {
        line
    }
}

/// The lines of `s`. A line ends at a line feed, or at a carriage return
/// directly followed by one; neither belongs to the line. What follows the
/// last line feed is a line of its own unless it is empty.
pub open spec fn lines(s: Seq<char>) -> Seq<Seq<char>>
    decreases s.len(),
{
    if s.len() == 0 {
        Seq::empty()
    } else {
        let k = first_break(s) as int;
        if k >= s.len() {
            seq![s]
        } else {
            seq![without_return(s.take(k))] + lines(s.skip(k + 1))
        }
    }
}

/// A position `k` before which `s` has no line feed, and at which it has
/// one or ends, is the first break of `s`.
pub proof fn lemma_first_break(s: Seq<char>, k: int)
    requires
        0 <= k <= s.len(),
        forall|j: int| 0 <= j < k ==> s[j] != '\n',
        k == s.len() || s[k] == '\n',
    ensures
        first_break(s) == k,
    decreases k,
{
    if k > 0 {
        lemma_first_break(s.drop_first(), k - 1);
    }
}

/// The characters of `text`, one by one.
pub fn chars_of(text: &str) -> (v: Vec<char>)
    ensures
        v@ == text@,
{
    let mut v: Vec<char> = Vec::new();
    for c in it: text.chars()
        invariant
            v@ == it.seq().take(it.index() as int),
            it.seq() == text@,
    {
        v.push(c);
    }
    v
}

fn matches_at(s: &Vec<char>, pattern: &Vec<char>, i: usize) -> (b: bool)
    requires
        i + pattern.len() <= s.len(),
    ensures
        b == occurs_at(s@, pattern@, i as int),
{
    let mut j: usize = 0;
    while j < pattern.len()
        invariant
            j <= pattern.len(),
            i + pattern.len() <= s.len(),
            forall|k: int| 0 <= k < j ==> s@[i + k] == pattern@[k],
        decreases pattern.len() - j,
    {
        if s[i + j] != pattern[j] {
            assert(s@.subrange(i as int, i + pattern.len())[j as int] != pattern@[j as int]);
            return false;
        }
        j += 1;
    }
    assert(s@.subrange(i as int, i + pattern.len()) =~= pattern@);
    true
}

/// Tells whether `pattern` stands somewhere in `text`.
pub fn contains(text: &str, pattern: &str) -> (b: bool)
    ensures
        b == occurs(text@, pattern@),
{
    let s = chars_of(text);
    let p = chars_of(pattern);
    if p.len() > s.len() {
        return false;
    }
    let last: usize = s.len() - p.len();
    let mut i: usize = 0;
    loop
        invariant
            i <= last,
            last == s.len() - p.len(),
            s@ == text@,
            p@ == pattern@,
            forall|k: int| 0 <= k < i ==> !occurs_at(s@, p@, k),
        decreases last - i,
    {
        if matches_at(&s, &p, i) {
            return true;
        }
        if i == last {
            return false;
        }
        i += 1;
    }
}

/// Tells whether `text` begins with `pattern`.
pub fn starts_with(text: &str, pattern: &str) -> (b: bool)
    ensures
        b == begins_with(text@, pattern@),
{
    let s = chars_of(text);
    let p = chars_of(pattern);
    if p.len() > s.len() {
        return false;
    }
    matches_at(&s, &p, 0)
}

/// `text` with the characters of `class` taken off both ends.
pub fn trim(text: &str, class: CharClass) -> (out: String)
    ensures
        out@ == trimmed(text@, class),
{
    let v = chars_of(text);
    let n: usize = v.len();
    let mut lo: usize = 0;
    assert(v@.skip(0) =~= v@);
    while lo < n && class.test(v[lo])
        invariant
            lo <= n,
            n == v.len(),
            skip_leading(v@, class) == skip_leading(v@.skip(lo as int), class),
        decreases n - lo,
    {
        assert(v@.skip(lo as int).drop_first() =~= v@.skip(lo + 1));
        lo += 1;
    }
    assert(skip_leading(v@, class) == v@.skip(lo as int));
    let mut hi: usize = n;
    assert(v@.skip(lo as int) =~= v@.subrange(lo as int, hi as int));
    while hi > lo && class.test(v[hi - 1])
        invariant
            lo <= hi <= n,
            n == v.len(),
            trimmed(v@, class) == skip_trailing(v@.subrange(lo as int, hi as int), class),
        decreases hi,
    {
        assert(v@.subrange(lo as int, hi as int).drop_last() =~= v@.subrange(
            lo as int,
            hi - 1,
        ));
        hi -= 1;
    }
    text.substring_char(lo, hi).to_owned()
}

/// The last run of visible characters in `text`.
pub fn last_word(text: &str) -> (out: String)
    ensures
        out@ == final_word(text@),
{
    let v = chars_of(text);
    let mut hi: usize = v.len();
    assert(v@.take(hi as int) =~= v@);
    while hi > 0 && whitespace(v[hi - 1])
        invariant
            hi <= v.len(),
            skip_trailing(v@, CharClass::Whitespace) == skip_trailing(
                v@.take(hi as int),
                CharClass::Whitespace,
            ),
        decreases hi,
    {
        assert(v@.take(hi as int).drop_last() =~= v@.take(hi - 1));
        hi -= 1;
    }
    let ghost stem = v@.take(hi as int);
    assert(skip_trailing(v@, CharClass::Whitespace) == stem);
    let mut lo: usize = hi;
    assert(stem.take(lo as int) =~= stem);
    assert(trailing(stem, CharClass::Visible) + v@.subrange(lo as int, hi as int) =~= trailing(
        stem,
        CharClass::Visible,
    ));
    while lo > 0 && !whitespace(v[lo - 1])
        invariant
            lo <= hi <= v.len(),
            stem == v@.take(hi as int),
            trailing(stem, CharClass::Visible) == trailing(
                v@.take(lo as int),
                CharClass::Visible,
            ) + v@.subrange(lo as int, hi as int),
        decreases lo,
    {
        assert(v@.take(lo as int).drop_last() =~= v@.take(lo - 1));
        assert(trailing(v@.take(lo - 1), CharClass::Visible).push(v@[lo - 1]) + v@.subrange(
            lo as int,
            hi as int,
        ) =~= trailing(v@.take(lo - 1), CharClass::Visible) + v@.subrange(lo - 1, hi as int));
        lo -= 1;
    }
    assert(trailing(stem, CharClass::Visible) =~= v@.subrange(lo as int, hi as int));
    text.substring_char(lo, hi).to_owned()
}

fn find_break(v: &Vec<char>, from: usize) -> (k: usize)
    requires
        from <= v.len(),
    ensures
        from <= k <= v.len(),
        k - from == first_break(v@.skip(from as int)),
{
    let mut k: usize = from;
    while k < v.len() && v[k] != '\n'
        invariant
            from <= k <= v.len(),
            forall|j: int| from <= j < k ==> v@[j] != '\n',
        decreases v.len() - k,
    {
        k += 1;
    }
    proof {
        lemma_first_break(v@.skip(from as int), k - from);
    }
    k
}

/// The lines of `text`.
pub fn split_lines(text: &str) -> (out: Vec<String>)
    ensures
        out.deep_view() == lines(text@),
{
    let v = chars_of(text);
    let n: usize = v.len();
    let mut out: Vec<String> = Vec::new();
    let mut pos: usize = 0;
    assert(v@.skip(0) =~= v@);
    assert(out.deep_view() + lines(v@) =~= lines(v@));
    while pos < n
        invariant
            pos <= n,
            n == v.len(),
            v@ == text@,
            lines(v@) == out.deep_view() + lines(v@.skip(pos as int)),
        decreases n - pos,
    {
        let ghost rest = v@.skip(pos as int);
        let ghost before = out.deep_view();
        let k = find_break(&v, pos);
        let end: usize = if k < n && k > pos && v[k - 1] == '\r' {
            k - 1
        } else {
            k
        };
        let next: usize = if k < n {
            k + 1
        } else {
            n
        };
        let line = text.substring_char(pos, end).to_owned();
        proof {
            assert(rest.take(k - pos) =~= v@.subrange(pos as int, k as int));
            if k < n {
                assert(rest.skip(k - pos + 1) =~= v@.skip(next as int));
                assert(without_return(rest.take(k - pos)) =~= line@);
            } else {
                assert(line@ =~= rest);
                assert(v@.skip(next as int).len() == 0);
                assert(lines(v@.skip(next as int)) =~= Seq::<Seq<char>>::empty());
            }
            assert(lines(rest) =~= seq![line@] + lines(v@.skip(next as int)));
        }
        out.push(line);
        proof {
            assert(out.deep_view() =~= before.push(line@));
            assert(before.push(line@) + lines(v@.skip(next as int)) =~= before + (seq![line@]
                + lines(v@.skip(next as int))));
        }
        pos = next;
    }
    assert(lines(v@.skip(pos as int)) =~= Seq::<Seq<char>>::empty());
    assert(out.deep_view() + Seq::<Seq<char>>::empty() =~= out.deep_view());
    out
}

} // verus!
