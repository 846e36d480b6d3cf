//! Character-level helpers shared by the parsing modules.
//!
//! All text logic in this crate works on `Vec<char>` values, whose view is
//! the same `Seq<char>` that `&str` and `String` views use, so contracts
//! compose directly with string views.

use vstd::prelude::*;
use vstd::string::StrSliceExecFns;
use vstd::utf8::{decode_utf8, valid_utf8};

verus! {

/// Collects the characters of a string slice.
pub fn chars_of(s: &str) -> (r: Vec<char>)
    ensures
        r@ == s@,
{
    let n = s.unicode_len();
    let mut r: Vec<char> = Vec::new();
    let mut i: usize = 0;
    while i < n
        invariant
            n == s@.len(),
            i <= n,
            r@ == s@.take(i as int),
        decreases n - i,
    {
        r.push(s.get_char(i));
        i = i + 1;
        proof {
            assert(r@ =~= s@.take(i as int));
        }
    }
    proof {
        assert(r@ =~= s@);
    }
    r
}

/// Relies on `String`'s `FromIterator<char>` impl: collecting characters
/// yields the string made of exactly those characters.
#[verifier::external_body]
pub fn string_from_chars(v: &Vec<char>) -> (r: String)
    ensures
        r@ == v@,
{
    v.iter().collect()
}

/// Relies on `String::from_utf8`: it succeeds exactly on valid UTF-8 input
/// and returns the string of the decoded characters.
#[verifier::external_body]
pub fn string_from_utf8(bytes: Vec<u8>) -> (r: Option<String>)
    ensures
        match r {
            Some(s) => valid_utf8(bytes@) && s@ == decode_utf8(bytes@),
            None => !valid_utf8(bytes@),
        },
{
    String::from_utf8(bytes).ok()
}

/// Two character vectors hold the same text.
pub fn chars_eq(a: &Vec<char>, b: &Vec<char>) -> (r: bool)
    ensures
        r == (a@ == b@),
{
    if a.len() != b.len() {
        proof {
            assert(a@ != b@);
        }
        return false;
    }
    let mut i: usize = 0;
    while i < a.len()
        invariant
            a@.len() == b@.len(),
            i <= a@.len(),
            forall|j: int| 0 <= j < i ==> a@[j] == b@[j],
        decreases a@.len() - i,
    {
        if a[i] != b[i] {
            return false;
        }
        i = i + 1;
    }
    proof {
        assert(a@ =~= b@);
    }
    true
}

/// The text of a string slice equals the given character vector.
pub fn chars_eq_str(a: &Vec<char>, s: &str) -> (r: bool)
    ensures
        r == (a@ == s@),
{
    let b = chars_of(s);
    chars_eq(a, &b)
}

/// A copy of the characters between two positions.
pub fn sub_chars(v: &Vec<char>, from: usize, to: usize) -> (r: Vec<char>)
    requires
        from <= to <= v@.len(),
    ensures
        r@ == v@.subrange(from as int, to as int),
{
    let mut r: Vec<char> = Vec::new();
    let mut i: usize = from;
    while i < to
        invariant
            from <= i <= to <= v@.len(),
            r@ == v@.subrange(from as int, i as int),
        decreases to - i,
    {
        r.push(v[i]);
        i = i + 1;
        proof {
            assert(r@ =~= v@.subrange(from as int, i as int));
        }
    }
    r
}

/// The whitespace characters this crate trims: the ASCII blank characters.
pub open spec fn spec_is_space(c: char) -> bool {
    c == ' ' || c == '\t' || c == '\n' || c == '\r' || c == '\u{000B}' || c == '\u{000C}'
}

pub fn is_space(c: char) -> (r: bool)
    ensures
        r == spec_is_space(c),
{
    c == ' ' || c == '\t' || c == '\n' || c == '\r' || c == '\u{000B}' || c == '\u{000C}'
}

/// Text with its leading whitespace removed.
pub open spec fn spec_trim_start(s: Seq<char>) -> Seq<char>
    decreases s.len(),
{
    if s.len() > 0 && spec_is_space(s[0]) {
        spec_trim_start(s.drop_first())
    } else {
        s
    }
}

/// Text with its trailing whitespace removed.
pub open spec fn spec_trim_end(s: Seq<char>) -> Seq<char>
    decreases s.len(),
{
    if s.len() > 0 && spec_is_space(s.last()) {
        spec_trim_end(s.drop_last())
    } else {
        s
    }
}

/// Text with whitespace removed from both ends.
pub open spec fn spec_trim(s: Seq<char>) -> Seq<char> {
    spec_trim_end(spec_trim_start(s))
}

proof fn lemma_trim_start_skip(s: Seq<char>, i: int)
    requires
        0 <= i <= s.len(),
        forall|k: int| 0 <= k < i ==> spec_is_space(#[trigger] s[k]),
        i == s.len() || !spec_is_space(s[i]),
    ensures
        spec_trim_start(s) == s.skip(i),
    decreases i,
{
    if i == 0 {
        assert(s.skip(0) =~= s);
    } else {
        assert(spec_is_space(s[0]));
        lemma_trim_start_skip(s.drop_first(), i - 1);
        assert(s.drop_first().skip(i - 1) =~= s.skip(i));
    }
}

proof fn lemma_trim_end_take(s: Seq<char>, j: int)
    requires
        0 <= j <= s.len(),
        forall|k: int| j <= k < s.len() ==> spec_is_space(#[trigger] s[k]),
        j == 0 || !spec_is_space(s[j - 1]),
    ensures
        spec_trim_end(s) == s.take(j),
    decreases s.len() - j,
{
    if j == s.len() {
        assert(s.take(j) =~= s);
        if s.len() > 0 && spec_is_space(s.last()) {
            lemma_trim_end_take(s.drop_last(), j - 1);
            assert(s.drop_last().take(j - 1) =~= s.take(j - 1));
            assert(spec_is_space(s[j - 1]));
        }
    } else {
        assert(spec_is_space(s.last()));
        lemma_trim_end_take(s.drop_last(), j);
        assert(s.drop_last().take(j) =~= s.take(j));
    }
}

/// Removes whitespace from both ends.
pub fn trim_chars(v: &Vec<char>) -> (r: Vec<char>)
    ensures
        r@ == spec_trim(v@),
{
    let n = v.len();
    let mut i: usize = 0;
    while i < n && is_space(v[i])
        invariant
            i <= n == v@.len(),
            forall|k: int| 0 <= k < i ==> spec_is_space(#[trigger] v@[k]),
        decreases n - i,
    {
        i = i + 1;
    }
    proof {
        lemma_trim_start_skip(v@, i as int);
    }
    let mut j: usize = n;
    while j > i && is_space(v[j - 1])
        invariant
            i <= j <= n == v@.len(),
            forall|k: int| j <= k < n ==> spec_is_space(#[trigger] v@[k]),
        decreases j,
    {
        j = j - 1;
    }
    proof {
        let t = v@.skip(i as int);
        if j == i {
            if i < n && spec_is_space(v@[i as int]) {
                assert(false);
            }
            lemma_trim_end_take(t, 0);
        } else {
            assert(!spec_is_space(v@[j - 1]));
            assert(forall|k: int|
                j - i <= k < t.len() ==> spec_is_space(#[trigger] t[k]) || !spec_is_space(
                    v@[k + i],
                ));
            lemma_trim_end_take(t, j - i);
        }
        assert(t.take(j - i) =~= v@.subrange(i as int, j as int));
    }
    sub_chars(v, i, j)
}

/// Removes leading whitespace.
pub fn trim_start_chars(v: &Vec<char>) -> (r: Vec<char>)
    ensures
        r@ == spec_trim_start(v@),
{
    let n = v.len();
    let mut i: usize = 0;
    while i < n && is_space(v[i])
        invariant
            i <= n == v@.len(),
            forall|k: int| 0 <= k < i ==> spec_is_space(#[trigger] v@[k]),
        decreases n - i,
    {
        i = i + 1;
    }
    proof {
        lemma_trim_start_skip(v@, i as int);
        assert(v@.subrange(i as int, n as int) =~= v@.skip(i as int));
    }
    sub_chars(v, i, n)
}

/// Removes trailing whitespace.
pub fn trim_end_chars(v: &Vec<char>) -> (r: Vec<char>)
    ensures
        r@ == spec_trim_end(v@),
{
    let n = v.len();
    let mut j: usize = n;
    while j > 0 && is_space(v[j - 1])
        invariant
            j <= n == v@.len(),
            forall|k: int| j <= k < n ==> spec_is_space(#[trigger] v@[k]),
        decreases j,
    {
        j = j - 1;
    }
    proof {
        lemma_trim_end_take(v@, j as int);
        assert(v@.subrange(0, j as int) =~= v@.take(j as int));
    }
    sub_chars(v, 0, j)
}

/// A text line: a trailing carriage return does not count.
pub open spec fn spec_strip_cr(line: Seq<char>) -> Seq<char> {
    if line.len() > 0 && line.last() == '\r' {
        line.drop_last()
    } else {
        line
    }
}

/// The lines of a text: the pieces between newlines, each without its
/// trailing carriage return.
pub open spec fn spec_lines(content: Seq<char>) -> Seq<Seq<char>> {
    spec_split_char(content, '\n').map_values(|l: Seq<char>| spec_strip_cr(l))
}

/// Splits a text into lines.
pub fn lines_of(v: &Vec<char>) -> (r: Vec<Vec<char>>)
    ensures
        r@.map_values(|p: Vec<char>| p@) == spec_lines(v@),
{
    let raw = split_char(v, '\n');
    let mut r: Vec<Vec<char>> = Vec::new();
    let mut i: usize = 0;
    while i < raw.len()
        invariant
            i <= raw@.len(),
            raw@.map_values(|p: Vec<char>| p@) == spec_split_char(v@, '\n'),
            r@.len() == i,
            forall|k: int| 0 <= k < i ==> #[trigger] r@[k]@ == spec_strip_cr(raw@[k]@),
        decreases raw@.len() - i,
    {
        let mut line = raw[i].clone();
        proof {
            assert(line@ =~= raw@[i as int]@);
        }
        if line.len() > 0 && line[line.len() - 1] == '\r' {
            line.pop();
            proof {
                assert(line@ =~= spec_strip_cr(raw@[i as int]@));
            }
        }
        proof {
            assert(line@ == spec_strip_cr(raw@[i as int]@));
        }
        r.push(line);
        i = i + 1;
    }
    proof {
        assert forall|k: int| 0 <= k < raw@.len() implies raw@[k]@ == spec_split_char(v@, '\n')[k] by {
            assert(raw@.map_values(|p: Vec<char>| p@)[k] == raw@[k]@);
        }
        assert(r@.map_values(|p: Vec<char>| p@) =~= spec_lines(v@));
    }
    r
}

/// Lines joined back into a text, a newline between each two.
pub open spec fn spec_join_nl(g: Seq<Seq<char>>) -> Seq<char>
    decreases g.len(),
{
    if g.len() == 0 {
        Seq::<char>::empty()
    } else if g.len() == 1 {
        g[0]
    } else {
        g[0] + seq!['\n'] + spec_join_nl(g.drop_first())
    }
}

/// Joins the lines from a position on, a newline between each two.
pub fn join_nl_from(g: &Vec<Vec<char>>, i: usize) -> (r: Vec<char>)
    requires
        i <= g@.len(),
    ensures
        r@ == spec_join_nl(g@.map_values(|p: Vec<char>| p@).skip(i as int)),
    decreases g@.len() - i,
{
    let ghost views = g@.map_values(|p: Vec<char>| p@);
    if i == g.len() {
        proof {
            assert(views.skip(i as int) =~= Seq::<Seq<char>>::empty());
        }
        Vec::new()
    } else {
        let mut r = sub_chars(&g[i], 0, g[i].len());
        proof {
            assert(r@ =~= views[i as int]);
        }
        if i + 1 == g.len() {
            proof {
                assert(views.skip(i as int) =~= seq![views[i as int]]);
            }
            r
        } else {
            r.push('\n');
            let mut rest = join_nl_from(g, i + 1);
            r.append(&mut rest);
            proof {
                assert(views.skip(i as int).drop_first() =~= views.skip(i + 1));
                assert(views.skip(i as int).len() > 1);
                assert(views.skip(i as int)[0] == views[i as int]);
                assert(r@ =~= views[i as int] + seq!['\n'] + spec_join_nl(views.skip(i + 1)));
            }
            r
        }
    }
}

/// The position of the first occurrence of a character, or -1.
pub open spec fn spec_find_char(s: Seq<char>, sep: char) -> int
    decreases s.len(),
{
    if s.len() == 0 {
        -1
    } else if s[0] == sep {
        0
    } else {
        let r = spec_find_char(s.drop_first(), sep);
        if r < 0 {
            -1
        } else {
            r + 1
        }
    }
}

/// A scan that stops at the first occurrence (or the end) finds exactly
/// what `spec_find_char` names.
pub proof fn lemma_find_char_is(s: Seq<char>, sep: char, i: int)
    requires
        0 <= i <= s.len(),
        forall|k: int| 0 <= k < i ==> s[k] != sep,
        i == s.len() || s[i] == sep,
    ensures
        spec_find_char(s, sep) == if i == s.len() {
            -1int
        } else {
            i
        },
    decreases s.len(),
{
    if s.len() == 0 {
    } else if s[0] == sep {
        assert(i == 0);
    } else {
        assert(i >= 1);
        lemma_find_char_is(s.drop_first(), sep, i - 1);
    }
}

/// The pieces of the text between occurrences of a separator character,
/// in order; one more piece than separators.
pub open spec fn spec_split_char(s: Seq<char>, sep: char) -> Seq<Seq<char>>
    decreases s.len(),
{
    let i = spec_find_char(s, sep);
    if i < 0 || i >= s.len() {
        seq![s]
    } else {
        seq![s.take(i)] + spec_split_char(s.skip(i + 1), sep)
    }
}

/// Splits on every occurrence of a separator character.
pub fn split_char(v: &Vec<char>, sep: char) -> (r: Vec<Vec<char>>)
    ensures
        r@.map_values(|p: Vec<char>| p@) == spec_split_char(v@, sep),
        r@.len() >= 1,
{
    let n = v.len();
    let mut parts: Vec<Vec<char>> = Vec::new();
    let mut pos: usize = 0;
    proof {
        assert(v@.skip(0) =~= v@);
        assert(parts@.map_values(|p: Vec<char>| p@) =~= Seq::<Seq<char>>::empty());
        assert(spec_split_char(v@, sep) =~= Seq::<Seq<char>>::empty() + spec_split_char(v@, sep));
    }
    loop
        invariant
            pos <= n == v@.len(),
            spec_split_char(v@, sep) == parts@.map_values(|p: Vec<char>| p@) + spec_split_char(
                v@.skip(pos as int),
                sep,
            ),
        decreases n - pos,
    {
        let ghost suffix = v@.skip(pos as int);
        let mut j: usize = pos;
        while j < n && v[j] != sep
            invariant
                pos <= j <= n == v@.len(),
                forall|k: int| pos <= k < j ==> v@[k] != sep,
            decreases n - j,
        {
            j = j + 1;
        }
        proof {
            assert(forall|k: int| 0 <= k < j - pos ==> #[trigger] suffix[k] == v@[k + pos]);
            lemma_find_char_is(suffix, sep, j - pos);
        }
        let piece = sub_chars(v, pos, j);
        parts.push(piece);
        if j == n {
            proof {
                assert(spec_split_char(suffix, sep) =~= seq![suffix]);
                assert(piece@ =~= suffix);
                assert(parts@.map_values(|p: Vec<char>| p@) =~= parts@.map_values(
                    |p: Vec<char>| p@,
                ).drop_last().push(piece@));
                assert(spec_split_char(v@, sep) =~= parts@.map_values(|p: Vec<char>| p@));
            }
            return parts;
        }
        proof {
            assert(suffix[j - pos] == sep);
            assert(spec_split_char(suffix, sep) == seq![suffix.take(j - pos)] + spec_split_char(
                suffix.skip(j - pos + 1),
                sep,
            ));
            assert(piece@ =~= suffix.take(j - pos));
            assert(suffix.skip(j - pos + 1) =~= v@.skip(j + 1));
            assert(parts@.map_values(|p: Vec<char>| p@) =~= parts@.map_values(
                |p: Vec<char>| p@,
            ).drop_last() + seq![piece@]);
            assert(spec_split_char(v@, sep) == parts@.map_values(|p: Vec<char>| p@)
                + spec_split_char(v@.skip(j + 1 as int), sep));
        }
        pos = j + 1;
    }
}

} // verus!
