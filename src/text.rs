//! Character-level helpers: splitting on a separator, ASCII upper-casing and
//! comparison of strings.

use vstd::prelude::*;

verus! {

/// The pieces of `s` between occurrences of `sep`, as `str::split` yields
/// them: never empty, and one more piece than `s` holds separators.
pub open spec fn split(s: Seq<char>, sep: char) -> Seq<Seq<char>>
    decreases s.len(),
{
    if s.len() == 0 {
        seq![Seq::<char>::empty()]
    } else {
        let rest = split(s.drop_last(), sep);
        if s.last() == sep {
            rest.push(Seq::<char>::empty())
        } else {
            rest.update(rest.len() - 1, rest.last().push(s.last()))
        }
    }
}

/// The two halves of a component `ID:VALUE`, when it holds exactly one `:`.
pub open spec fn pair_of(c: Seq<char>) -> Option<(Seq<char>, Seq<char>)> {
    let p = split(c, ':');
    if p.len() == 2 {
        Some((p[0], p[1]))
    } else {
        None
    }
}

/// ASCII upper case of one character; every other character is kept.
pub open spec fn upper_char(c: char) -> char {
    if 'a' <= c && c <= 'z' {
        ((c as u32) - 32) as char
    } else {
        c
    }
}

/// ASCII upper case of a string.
pub open spec fn upper(s: Seq<char>) -> Seq<char> {
    s.map_values(|c: char| upper_char(c))
}

pub proof fn lemma_split_nonempty(s: Seq<char>, sep: char)
    ensures
        split(s, sep).len() >= 1,
    decreases s.len(),
{
    if s.len() > 0 {
        lemma_split_nonempty(s.drop_last(), sep);
    }
}

/// Whether `s` holds no `sep`.
pub open spec fn free_of(s: Seq<char>, sep: char) -> bool {
    forall|i: int| 0 <= i < s.len() ==> s[i] != sep
}

/// Whether every character of `s` is an upper-case ASCII letter.
pub open spec fn all_upper(s: Seq<char>) -> bool {
    forall|i: int| 0 <= i < s.len() ==> 'A' <= #[trigger] s[i] <= 'Z'
}

/// Text without `sep` extends the last piece.
pub proof fn lemma_split_plain(x: Seq<char>, y: Seq<char>, sep: char)
    requires
        free_of(y, sep),
    ensures
        split(x + y, sep) == split(x, sep).update(
            split(x, sep).len() - 1,
            split(x, sep).last() + y,
        ),
    decreases y.len(),
{
    lemma_split_nonempty(x, sep);
    if y.len() == 0 {
        assert(x + y =~= x);
        assert(split(x, sep).last() + y =~= split(x, sep).last());
        assert(split(x, sep).update(split(x, sep).len() - 1, split(x, sep).last()) =~= split(x, sep));
    } else {
        let y0 = y.drop_last();
        lemma_split_plain(x, y0, sep);
        assert((x + y).drop_last() =~= x + y0);
        assert((x + y).last() == y.last());
        lemma_split_nonempty(x + y0, sep);
        assert((split(x, sep).last() + y0).push(y.last()) =~= split(x, sep).last() + y);
        let l = split(x, sep).len() - 1;
        assert(split(x, sep).update(l, split(x, sep).last() + y0).update(l, split(x, sep).last() + y)
            =~= split(x, sep).update(l, split(x, sep).last() + y));
    }
}

/// A separator followed by text without it starts a new piece.
pub proof fn lemma_split_sep(x: Seq<char>, y: Seq<char>, sep: char)
    requires
        free_of(y, sep),
    ensures
        split(x.push(sep) + y, sep) == split(x, sep).push(y),
{
    assert(x.push(sep).drop_last() =~= x);
    lemma_split_plain(x.push(sep), y, sep);
    assert(Seq::<char>::empty() + y =~= y);
    assert(split(x, sep).push(Seq::empty()).update(split(x, sep).len() as int, y) =~= split(x, sep).push(y));
}

/// Text without `sep` is one piece.
pub proof fn lemma_split_single(y: Seq<char>, sep: char)
    requires
        free_of(y, sep),
    ensures
        split(y, sep) == seq![y],
{
    lemma_split_plain(Seq::empty(), y, sep);
    assert(Seq::<char>::empty() + y =~= y);
    assert(Seq::<char>::empty() + y == y);
    assert(seq![Seq::<char>::empty()].update(0, y) =~= seq![y]);
}

/// `a:b` with no `:` in `a` or `b` splits into `(a, b)`.
pub proof fn lemma_pair_of(a: Seq<char>, b: Seq<char>)
    requires
        free_of(a, ':'),
        free_of(b, ':'),
    ensures
        pair_of(a.push(':') + b) == Some((a, b)),
{
    lemma_split_single(a, ':');
    lemma_split_sep(a, b, ':');
    assert(seq![a].push(b) =~= seq![a, b]);
}

/// Upper-casing leaves upper-case letters alone.
pub proof fn lemma_upper_identity(s: Seq<char>)
    requires
        all_upper(s),
    ensures
        upper(s) == s,
{
    assert(upper(s) =~= s);
}

/// Relies on `str::to_ascii_uppercase`: ASCII letters `a..=z` become
/// `A..=Z`, every other character is kept.
#[verifier::external_body]
pub(crate) fn ascii_upper(s: &str) -> (r: String)
    ensures
        r@ == upper(s@),
{
    s.to_ascii_uppercase()
}

/// Whether two strings hold the same characters.
pub fn str_eq(a: &str, b: &str) -> (r: bool)
    ensures
        r == (a@ == b@),
{
    let n = a.unicode_len();
    let m = b.unicode_len();
    if n != m {
        return false;
    }
    let mut i: usize = 0;
    while i < n
        invariant
            i <= n,
            n == a@.len(),
            m == b@.len(),
            n == m,
            forall|j: int| 0 <= j < i ==> a@[j] == b@[j],
        decreases n - i,
    {
        if a.get_char(i) != b.get_char(i) {
            return false;
        }
        i += 1;
    }
    assert(a@ =~= b@);
    true
}

/// Split a component at its one `:`, or `None` when it holds none or more
/// than one.
pub fn split_pair(c: &str) -> (r: Option<(&str, &str)>)
    ensures
        match r {
            Some((id, value)) => pair_of(c@) == Some((id@, value@)),
            None => pair_of(c@) is None,
        },
{
    let n = c.unicode_len();
    let mut i: usize = 0;
    let mut count: usize = 0;
    let mut pos: usize = 0;
    while i < n
        invariant
            i <= n,
            n == c@.len(),
            count <= i,
            split(c@.subrange(0, i as int), ':').len() == count + 1,
            count == 0 ==> split(c@.subrange(0, i as int), ':')[0] == c@.subrange(0, i as int),
            count >= 1 ==> pos < i,
            count == 1 ==> split(c@.subrange(0, i as int), ':')[0] == c@.subrange(0, pos as int),
            count == 1 ==> split(c@.subrange(0, i as int), ':')[1] == c@.subrange(pos + 1, i as int),
        decreases n - i,
    {
        let ch = c.get_char(i);
        let ghost pre = c@.subrange(0, i as int);
        let ghost post = c@.subrange(0, i + 1);
        assert(post.drop_last() =~= pre);
        assert(post.last() == ch);
        if ch == ':' {
            if count == 0 {
                pos = i;
                assert(c@.subrange(pos + 1, i + 1) =~= Seq::<char>::empty());
            }
            count += 1;
        } else {
            if count == 0 {
                assert(c@.subrange(0, i + 1) =~= c@.subrange(0, i as int).push(ch));
            } else if count == 1 {
                assert(c@.subrange(pos + 1, i + 1) =~= c@.subrange(pos + 1, i as int).push(ch));
            }
        }
        i += 1;
    }
    assert(c@.subrange(0, n as int) =~= c@);
    if count == 1 {
        let id = c.substring_char(0, pos);
        let value = c.substring_char(pos + 1, n);
        Some((id, value))
    } else {
        None
    }
}

} // verus!
