//! Text primitives used on the output of command-line tools: whitespace
//! trimming and splitting into lines, stated over sequences of characters.

use vstd::prelude::*;

verus! {

/// Whether `c` has the Unicode `White_Space` property.
pub open spec fn is_space(c: char) -> bool {
    ||| ('\u{9}' <= c && c <= '\u{d}')
    ||| c == ' '
    ||| c == '\u{85}'
    ||| c == '\u{a0}'
    ||| c == '\u{1680}'
    ||| ('\u{2000}' <= c && c <= '\u{200a}')
    ||| c == '\u{2028}'
    ||| c == '\u{2029}'
    ||| c == '\u{202f}'
    ||| c == '\u{205f}'
    ||| c == '\u{3000}'
}

/// `s` without its leading whitespace.
pub open spec fn skip_leading_space(s: Seq<char>) -> Seq<char>
    decreases s.len(),
{
    if s.len() > 0 && is_space(s[0]) {
        skip_leading_space(s.drop_first())
    } else {
        s
    }
}

/// `s` without its trailing whitespace.
pub open spec fn skip_trailing_space(s: Seq<char>) -> Seq<char>
    decreases s.len(),
{
    if s.len() > 0 && is_space(s.last()) {
        skip_trailing_space(s.drop_last())
    } else {
        s
    }
}

/// `s` with leading and trailing whitespace removed.
pub open spec fn trimmed(s: Seq<char>) -> Seq<char> {
    skip_trailing_space(skip_leading_space(s))
}

/// A text is blank when nothing is left of it after trimming.
pub open spec fn is_blank(s: Seq<char>) -> bool {
    trimmed(s).len() == 0
}

/// Position of the first line feed in `s`, or `s.len()` when there is none.
pub open spec fn first_newline(s: Seq<char>) -> int
    decreases s.len(),
{
    if s.len() == 0 || s[0] == '\n' {
        0
    } else {
        1 + first_newline(s.drop_first())
    }
}

/// A line that was ended by a line feed loses one carriage return before it.
pub open spec fn strip_carriage_return(line: Seq<char>) -> Seq<char> {
    if line.len() > 0 && line.last() == '\r' {
        line.drop_last()
    } else {
        line
    }
}

/// The lines of `s`. Lines end at `\n` or `\r\n`; the terminator is not part
/// of the line, and a terminator at the very end opens no further line.
pub open spec fn lines(s: Seq<char>) -> Seq<Seq<char>>
    decreases s.len(),
{
    let n = first_newline(s);
    if s.len() == 0 {
        Seq::empty()
    } else if 0 <= n < s.len() {
        seq![strip_carriage_return(s.subrange(0, n))] + lines(s.subrange(n + 1, s.len() as int))
    } else {
        seq![s]
    }
}

/// The lines of `s` that are not blank, each as it stands in `s`.
pub open spec fn non_blank_lines(s: Seq<char>) -> Seq<Seq<char>> {
    lines(s).filter(|l: Seq<char>| !is_blank(l))
}

/// The first line of `s`, if it has one.
pub open spec fn first_line(s: Seq<char>) -> Option<Seq<char>> {
    if lines(s).len() == 0 {
        None
    } else {
        Some(lines(s)[0])
    }
}

/// The character contents of a list of strings.
pub open spec fn texts(v: Seq<String>) -> Seq<Seq<char>> {
    v.map_values(|s: String| s@)
}

/// Skipping leading whitespace drops everything before the first character
/// that is not whitespace.
pub proof fn lemma_skip_leading_space(s: Seq<char>, a: int)
    requires
        0 <= a <= s.len(),
        forall|i: int| 0 <= i < a ==> is_space(#[trigger] s[i]),
        a == s.len() || !is_space(s[a]),
    ensures
        skip_leading_space(s) == s.subrange(a, s.len() as int),
    decreases a,
{
    if a == 0 {
        assert(s.subrange(0, s.len() as int) =~= s);
    } else {
        assert(is_space(s[0]));
        let t = s.drop_first();
        assert forall|i: int| 0 <= i < a - 1 implies is_space(#[trigger] t[i]) by {
            assert(t[i] == s[i + 1]);
        }
        lemma_skip_leading_space(t, a - 1);
        assert(t.subrange(a - 1, t.len() as int) =~= s.subrange(a, s.len() as int));
    }
}

/// Skipping trailing whitespace drops everything behind the last character
/// that is not whitespace.
pub proof fn lemma_skip_trailing_space(s: Seq<char>, b: int)
    requires
        0 <= b <= s.len(),
        forall|i: int| b <= i < s.len() ==> is_space(#[trigger] s[i]),
        b == 0 || !is_space(s[b - 1]),
    ensures
        skip_trailing_space(s) == s.subrange(0, b),
    decreases s.len() - b,
{
    if b == s.len() {
        assert(s.subrange(0, b) =~= s);
    } else {
        assert(is_space(s.last()));
        let t = s.drop_last();
        assert forall|i: int| b <= i < t.len() implies is_space(#[trigger] t[i]) by {
            assert(t[i] == s[i]);
        }
        lemma_skip_trailing_space(t, b);
        assert(t.subrange(0, b) =~= s.subrange(0, b));
    }
}

/// Trimming keeps exactly the span from the first to the last character that
/// is not whitespace.
pub proof fn lemma_trimmed_is_span(s: Seq<char>, a: int, b: int)
    requires
        0 <= a <= b <= s.len(),
        forall|i: int| 0 <= i < a ==> is_space(#[trigger] s[i]),
        forall|i: int| b <= i < s.len() ==> is_space(#[trigger] s[i]),
        a == b || (!is_space(s[a]) && !is_space(s[b - 1])),
    ensures
        trimmed(s) == s.subrange(a, b),
{
    if a == b {
        // everything is whitespace
        lemma_skip_leading_space(s, s.len() as int);
        let e = s.subrange(s.len() as int, s.len() as int);
        assert(e.len() == 0);
        assert(skip_trailing_space(e) == e);
        assert(e =~= s.subrange(a, b));
    } else {
        lemma_skip_leading_space(s, a);
        let t = s.subrange(a, s.len() as int);
        assert forall|i: int| b - a <= i < t.len() implies is_space(#[trigger] t[i]) by {
            assert(t[i] == s[i + a]);
        }
        assert(t[b - a - 1] == s[b - 1]);
        lemma_skip_trailing_space(t, b - a);
        assert(t.subrange(0, b - a) =~= s.subrange(a, b));
    }
}

proof fn lemma_trailing_keeps_head(s: Seq<char>)
    ensures
        skip_trailing_space(s).len() > 0 ==> skip_trailing_space(s)[0] == s[0],
    decreases s.len(),
{
    if s.len() > 0 && is_space(s.last()) {
        lemma_trailing_keeps_head(s.drop_last());
    }
}

/// `first_newline` is where the first line feed stands.
pub proof fn lemma_first_newline(s: Seq<char>, n: int)
    requires
        0 <= n <= s.len(),
        forall|i: int| 0 <= i < n ==> #[trigger] s[i] != '\n',
        n == s.len() || s[n] == '\n',
    ensures
        first_newline(s) == n,
    decreases n,
{
    if n > 0 {
        let t = s.drop_first();
        assert forall|i: int| 0 <= i < n - 1 implies #[trigger] t[i] != '\n' by {
            assert(t[i] == s[i + 1]);
        }
        lemma_first_newline(t, n - 1);
    }
}

/// Whether `c` has the Unicode `White_Space` property.
pub fn is_whitespace(c: char) -> (b: bool)
    ensures
        b == is_space(c),
{
    ('\u{9}' <= c && c <= '\u{d}') || c == ' ' || c == '\u{85}' || c == '\u{a0}' || c
        == '\u{1680}' || ('\u{2000}' <= c && c <= '\u{200a}') || c == '\u{2028}' || c
        == '\u{2029}' || c == '\u{202f}' || c == '\u{205f}' || c == '\u{3000}'
}

/// The characters of `s`, in order.
pub fn to_chars(s: &str) -> (v: Vec<char>)
    ensures
        v@ == s@,
{
    let mut v: Vec<char> = Vec::new();
    for c in it: s.chars()
        invariant
            v@ == it.seq().take(it.index() as int),
    {
        v.push(c);
    }
    v
}

/// Appends one character with `String::push`.
#[verifier::external_body]
fn push_char(s: &mut String, c: char)
    ensures
        final(s)@ == old(s)@.push(c),
{
    s.push(c)
}

/// Copies the characters `from..to` of `cs` into a new string.
fn span_of(cs: &Vec<char>, from: usize, to: usize) -> (r: String)
    requires
        from <= to <= cs@.len(),
    ensures
        r@ == cs@.subrange(from as int, to as int),
{
    let mut r = String::new();
    let mut i: usize = from;
    proof {
        assert(cs@.subrange(from as int, from as int) =~= Seq::<char>::empty());
    }
    while i < to
        invariant
            from <= i <= to <= cs@.len(),
            r@ == cs@.subrange(from as int, i as int),
        decreases to - i,
    {
        push_char(&mut r, cs[i]);
        proof {
            assert(cs@.subrange(from as int, i as int).push(cs@[i as int]) =~= cs@.subrange(
                from as int,
                i + 1,
            ));
        }
        i += 1;
    }
    r
}

/// Removes leading and trailing whitespace.
pub fn trim(s: &str) -> (r: String)
    ensures
        r@ == trimmed(s@),
{
    let cs = to_chars(s);
    let n: usize = cs.len();
    let mut a: usize = 0;
    while a < n && is_whitespace(cs[a])
        invariant
            n == cs.len(),
            a <= n,
            forall|i: int| 0 <= i < a ==> is_space(#[trigger] cs@[i]),
        decreases n - a,
    {
        a += 1;
    }
    let mut b: usize = n;
    while b > a && is_whitespace(cs[b - 1])
        invariant
            n == cs.len(),
            a <= b <= n,
            forall|i: int| b <= i < n ==> is_space(#[trigger] cs@[i]),
        decreases b,
    {
        b -= 1;
    }
    proof {
        lemma_trimmed_is_span(s@, a as int, b as int);
    }
    span_of(&cs, a, b)
}

/// Whether nothing but whitespace stands in `s`.
pub fn blank(s: &str) -> (b: bool)
    ensures
        b == is_blank(s@),
{
    let cs = to_chars(s);
    let n: usize = cs.len();
    let mut a: usize = 0;
    while a < n && is_whitespace(cs[a])
        invariant
            n == cs.len(),
            a <= n,
            forall|i: int| 0 <= i < a ==> is_space(#[trigger] cs@[i]),
        decreases n - a,
    {
        a += 1;
    }
    proof {
        if a == n {
            lemma_trimmed_is_span(s@, n as int, n as int);
        } else {
            lemma_skip_leading_space(s@, a as int);
            let t = skip_leading_space(s@);
            assert(t[0] == s@[a as int]);
            lemma_trailing_keeps_head(t);
            lemma_nonspace_survives(t);
        }
    }
    a == n
}

proof fn lemma_nonspace_survives(s: Seq<char>)
    requires
        s.len() > 0,
        !is_space(s[0]),
    ensures
        skip_trailing_space(s).len() > 0,
    decreases s.len(),
{
    if is_space(s.last()) {
        assert(s.len() > 1);
        assert(s.drop_last()[0] == s[0]);
        lemma_nonspace_survives(s.drop_last());
    }
}

/// Splits `s` into its lines.
pub fn split_lines(s: &str) -> (out: Vec<String>)
    ensures
        texts(out@) == lines(s@),
{
    let cs = to_chars(s);
    let n: usize = cs.len();
    let mut out: Vec<String> = Vec::new();
    let mut from: usize = 0;
    let mut i: usize = 0;
    proof {
        assert(s@.subrange(0, n as int) =~= s@);
        assert(texts(out@) =~= Seq::<Seq<char>>::empty());
    }
    while i < n
        invariant
            n == cs.len(),
            cs@ == s@,
            from <= i <= n,
            forall|k: int| from <= k < i ==> #[trigger] cs@[k] != '\n',
            texts(out@) + lines(s@.subrange(from as int, n as int)) == lines(s@),
        decreases n - i,
    {
        if cs[i] == '\n' {
            let end: usize = if i > from && cs[i - 1] == '\r' {
                i - 1
            } else {
                i
            };
            let line = span_of(&cs, from, end);
            proof {
                let rest = s@.subrange(from as int, n as int);
                assert forall|k: int| 0 <= k < i - from implies #[trigger] rest[k] != '\n' by {
                    assert(rest[k] == cs@[k + from]);
                }
                lemma_first_newline(rest, i - from);
                let raw = rest.subrange(0, i - from);
                assert(raw =~= s@.subrange(from as int, i as int));
                assert(strip_carriage_return(raw) =~= line@);
                assert(rest.subrange(i - from + 1, rest.len() as int) =~= s@.subrange(
                    i + 1,
                    n as int,
                ));
                assert(texts(out@.push(line)) =~= texts(out@) + seq![line@]);
            }
            out.push(line);
            from = i + 1;
        }
        i += 1;
    }
    if from < n {
        let line = span_of(&cs, from, n);
        proof {
            let rest = s@.subrange(from as int, n as int);
            assert forall|k: int| 0 <= k < n - from implies #[trigger] rest[k] != '\n' by {
                assert(rest[k] == cs@[k + from]);
            }
            lemma_first_newline(rest, n - from);
            assert(lines(rest) =~= seq![rest]);
            assert(texts(out@.push(line)) =~= texts(out@) + seq![line@]);
        }
        out.push(line);
    } else {
        proof {
            assert(s@.subrange(from as int, n as int).len() == 0);
            assert(texts(out@) + Seq::<Seq<char>>::empty() =~= texts(out@));
        }
    }
    out
}

/// The lines of `s` that hold something other than whitespace, unchanged.
pub fn split_non_blank_lines(s: &str) -> (out: Vec<String>)
    ensures
        texts(out@) == non_blank_lines(s@),
        forall|i: int| 0 <= i < out@.len() ==> !is_blank(#[trigger] out@[i]@),
{
    let all = split_lines(s);
    let ghost keep = |l: Seq<char>| !is_blank(l);
    let mut out: Vec<String> = Vec::new();
    let mut i: usize = 0;
    proof {
        assert(texts(all@).take(0) =~= Seq::<Seq<char>>::empty());
        assert(texts(out@) =~= Seq::<Seq<char>>::empty());
        assert(Seq::<Seq<char>>::empty().filter(keep) =~= Seq::<Seq<char>>::empty()) by {
            Seq::<Seq<char>>::empty().lemma_filter_len(keep);
        }
    }
    while i < all.len()
        invariant
            i <= all.len(),
            texts(all@) == lines(s@),
            keep == (|l: Seq<char>| !is_blank(l)),
            texts(out@) == texts(all@).take(i as int).filter(keep),
            forall|k: int| 0 <= k < out@.len() ==> !is_blank(#[trigger] out@[k]@),
        decreases all.len() - i,
    {
        let is_empty = blank(all[i].as_str());
        proof {
            let before = texts(all@).take(i as int);
            let item = all@[i as int]@;
            assert(texts(all@)[i as int] == item);
            assert(texts(all@).take(i + 1) =~= before.push(item));
            before.lemma_filter_push(item, keep);
        }
        if !is_empty {
            let line = all[i].clone();
            proof {
                assert(texts(out@.push(line)) =~= texts(out@).push(line@));
            }
            out.push(line);
        }
        i += 1;
    }
    proof {
        assert(texts(all@).take(all@.len() as int) =~= texts(all@));
    }
    out
}

/// The first line of `s`, if it has one.
pub fn take_first_line(s: &str) -> (r: Option<String>)
    ensures
        match r {
            Some(l) => first_line(s@) == Some(l@),
            None => first_line(s@) is None,
        },
{
    let cs = to_chars(s);
    let n: usize = cs.len();
    if n == 0 {
        return None;
    }
    let mut i: usize = 0;
    while i < n && cs[i] != '\n'
        invariant
            n == cs.len(),
            i <= n,
            forall|k: int| 0 <= k < i ==> #[trigger] cs@[k] != '\n',
        decreases n - i,
    {
        i += 1;
    }
    proof {
        lemma_first_newline(s@, i as int);
    }
    if i < n {
        let end: usize = if i > 0 && cs[i - 1] == '\r' {
            i - 1
        } else {
            i
        };
        let line = span_of(&cs, 0, end);
        proof {
            assert(strip_carriage_return(s@.subrange(0, i as int)) =~= line@);
        }
        Some(line)
    } else {
        let line = span_of(&cs, 0, n);
        proof {
            assert(s@.subrange(0, n as int) =~= s@);
        }
        Some(line)
    }
}

/// A copy of a list of strings.
pub fn copy_texts(v: &Vec<String>) -> (out: Vec<String>)
    ensures
        texts(out@) == texts(v@),
{
    let mut out: Vec<String> = Vec::new();
    let mut i: usize = 0;
    while i < v.len()
        invariant
            i <= v.len(),
            out@.len() == i,
            forall|k: int| 0 <= k < i ==> #[trigger] out@[k]@ == v@[k]@,
        decreases v.len() - i,
    {
        out.push(v[i].clone());
        i += 1;
    }
    proof {
        assert(texts(out@) =~= texts(v@));
    }
    out
}

} // verus!
