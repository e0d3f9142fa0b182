//! Character-level text operations on which the page parsers are built:
//! trimming, stripping and splitting, each stated over `Seq<char>`.

use vstd::prelude::*;

verus! {

/// A class of characters that stripping and splitting work with.
#[derive(Clone, Copy, Debug, PartialEq, Eq)]
pub enum CharSet {
    /// Unicode `White_Space`, the class that `char::is_whitespace` tests.
    Whitespace,
    /// A single character.
    Only(char),
    /// The ASCII digits `1` to `9`.
    NonzeroDigit,
}

/// The characters with the Unicode `White_Space` property.
pub open spec fn is_whitespace(c: char) -> bool {
    let n = c as u32;
    ||| 0x09 <= n <= 0x0D
    ||| n == 0x20
    ||| n == 0x85
    ||| n == 0xA0
    ||| n == 0x1680
    ||| 0x2000 <= n <= 0x200A
    ||| n == 0x2028
    ||| n == 0x2029
    ||| n == 0x202F
    ||| n == 0x205F
    ||| n == 0x3000
}

pub open spec fn in_set(set: CharSet, c: char) -> bool {
    match set {
        CharSet::Whitespace => is_whitespace(c),
        CharSet::Only(x) => c == x,
        CharSet::NonzeroDigit => '1' as u32 <= c as u32 <= '9' as u32,
    }
}

/// `s` without its leading characters of `set`.
pub open spec fn stripped_start(s: Seq<char>, set: CharSet) -> Seq<char>
    decreases s.len(),
{
    if s.len() > 0 && in_set(set, s[0]) {
        stripped_start(s.drop_first(), set)
    } else {
        s
    }
}

/// `s` without its trailing characters of `set`.
pub open spec fn stripped_end(s: Seq<char>, set: CharSet) -> Seq<char>
    decreases s.len(),
{
    if s.len() > 0 && in_set(set, s.last()) {
        stripped_end(s.drop_last(), set)
    } else {
        s
    }
}

/// `s` without its leading and trailing characters of `set`.
pub open spec fn stripped(s: Seq<char>, set: CharSet) -> Seq<char> {
    stripped_end(stripped_start(s, set), set)
}

/// `s` without leading and trailing whitespace.
pub open spec fn trimmed(s: Seq<char>) -> Seq<char> {
    stripped(s, CharSet::Whitespace)
}

/// The pieces of `s` between the characters of `set`, empty pieces included:
/// `n` separators give `n + 1` pieces.
pub open spec fn pieces(s: Seq<char>, set: CharSet) -> Seq<Seq<char>>
    decreases s.len(),
{
    if s.len() == 0 {
        seq![Seq::<char>::empty()]
    } else {
        let init = pieces(s.drop_last(), set);
        if in_set(set, s.last()) {
            init.push(Seq::<char>::empty())
        } else {
            init.update(init.len() - 1, init.last().push(s.last()))
        }
    }
}

/// The texts `ps`, joined with `sep` between them.
pub open spec fn rejoined(ps: Seq<Seq<char>>, sep: char) -> Seq<char>
    decreases ps.len(),
{
    if ps.len() == 0 {
        Seq::empty()
    } else if ps.len() == 1 {
        ps[0]
    } else {
        rejoined(ps.drop_last(), sep).push(sep) + ps.last()
    }
}

pub proof fn lemma_pieces_nonempty(s: Seq<char>, set: CharSet)
    ensures
        pieces(s, set).len() >= 1,
    decreases s.len(),
{
    if s.len() > 0 {
        lemma_pieces_nonempty(s.drop_last(), set);
    }
}

pub fn char_in_set(set: CharSet, c: char) -> (r: bool)
    ensures
        r == in_set(set, c),
{
    let n: u32 = c as u32;
    match set {
        CharSet::Whitespace => {
            (0x09 <= n && n <= 0x0D) || n == 0x20 || n == 0x85 || n == 0xA0 || n == 0x1680
                || (0x2000 <= n && n <= 0x200A) || n == 0x2028 || n == 0x2029 || n == 0x202F
                || n == 0x205F || n == 0x3000
        },
        CharSet::Only(x) => c == x,
        CharSet::NonzeroDigit => 0x31 <= n && n <= 0x39,
    }
}

/// The characters of `s`, in order.
pub(crate) fn chars_of(s: &str) -> (r: Vec<char>)
    ensures
        r@ == s@,
{
    broadcast use vstd::string::axiom_spec_iter;

    let mut v: Vec<char> = Vec::new();
    for c in it: s.chars()
        invariant
            it.seq() == s@,
            v@ == it.seq().take(it.index() as int),
    {
        assert(it.seq().take(it.index() + 1) =~= v@.push(c));
        v.push(c);
    }
    assert(s@.take(s@.len() as int) =~= s@);
    v
}

/// Appends `c` to `s` (std `String::push`).
#[verifier::external_body]
pub(crate) fn push_char(s: &mut String, c: char)
    ensures
        final(s)@ == old(s)@.push(c),
{
    s.push(c)
}

/// The text of `v[lo..hi]`.
pub fn string_of(v: &Vec<char>, lo: usize, hi: usize) -> (r: String)
    requires
        lo <= hi <= v.len(),
    ensures
        r@ == v@.subrange(lo as int, hi as int),
{
    let mut r = String::new();
    let mut i = lo;
    while i < hi
        invariant
            lo <= i <= hi <= v.len(),
            r@ == v@.subrange(lo as int, i as int),
        decreases hi - i,
    {
        push_char(&mut r, v[i]);
        assert(v@.subrange(lo as int, i + 1) =~= v@.subrange(lo as int, i as int).push(v@[i as int]));
        i = i + 1;
    }
    r
}

/// Whether `s` holds no character.
pub fn is_blank(s: &String) -> (r: bool)
    ensures
        r == (s@.len() == 0),
{
    s.as_str().is_empty()
}

/// The position of the first character of `v[lo..]` outside `set`.
fn skip_start(v: &Vec<char>, set: CharSet) -> (lo: usize)
    ensures
        lo <= v.len(),
        stripped_start(v@, set) == v@.subrange(lo as int, v.len() as int),
{
    let mut i: usize = 0;
    assert(v@.subrange(0, v.len() as int) =~= v@);
    while i < v.len() && char_in_set(set, v[i])
        invariant
            i <= v.len(),
            stripped_start(v@, set) == stripped_start(v@.subrange(i as int, v.len() as int), set),
        decreases v.len() - i,
    {
        assert(v@.subrange(i as int, v.len() as int).drop_first() =~= v@.subrange(
            i + 1,
            v.len() as int,
        ));
        i = i + 1;
    }
    i
}

/// The end of `v[lo..hi]` once its trailing characters of `set` are dropped.
fn skip_end(v: &Vec<char>, lo: usize, set: CharSet) -> (hi: usize)
    requires
        lo <= v.len(),
    ensures
        lo <= hi <= v.len(),
        stripped_end(v@.subrange(lo as int, v.len() as int), set) == v@.subrange(
            lo as int,
            hi as int,
        ),
{
    let mut j: usize = v.len();
    while j > lo && char_in_set(set, v[j - 1])
        invariant
            lo <= j <= v.len(),
            stripped_end(v@.subrange(lo as int, v.len() as int), set) == stripped_end(
                v@.subrange(lo as int, j as int),
                set,
            ),
        decreases j,
    {
        assert(v@.subrange(lo as int, j as int).drop_last() =~= v@.subrange(
            lo as int,
            j - 1,
        ));
        j = j - 1;
    }
    j
}

/// `s` without its leading and trailing characters of `set`
/// (std `str::trim` for `Whitespace`, `str::trim_matches` for `Only`).
pub fn strip(s: &str, set: CharSet) -> (r: String)
    ensures
        r@ == stripped(s@, set),
{
    let v = chars_of(s);
    let lo = skip_start(&v, set);
    let hi = skip_end(&v, lo, set);
    string_of(&v, lo, hi)
}

/// `s` without leading and trailing whitespace (std `str::trim`).
pub fn trim(s: &str) -> (r: String)
    ensures
        r@ == trimmed(s@),
{
    strip(s, CharSet::Whitespace)
}

/// `s` without its leading characters of `set` (std `str::trim_start_matches`).
pub fn strip_start(s: &str, set: CharSet) -> (r: String)
    ensures
        r@ == stripped_start(s@, set),
{
    let v = chars_of(s);
    let lo = skip_start(&v, set);
    string_of(&v, lo, v.len())
}

/// `s` without its trailing characters of `set` (std `str::trim_end`).
pub fn strip_end(s: &str, set: CharSet) -> (r: String)
    ensures
        r@ == stripped_end(s@, set),
{
    let v = chars_of(s);
    assert(v@.subrange(0, v.len() as int) =~= v@);
    let hi = skip_end(&v, 0, set);
    string_of(&v, 0, hi)
}

/// The pieces of `s` between the characters of `set` (std `str::split`).
pub fn split(s: &str, set: CharSet) -> (r: Vec<String>)
    ensures
        r.deep_view() == pieces(s@, set),
{
    let v = chars_of(s);
    let mut done: Vec<String> = Vec::new();
    let mut cur = String::new();
    let mut i: usize = 0;
    assert(v@.take(0) =~= Seq::<char>::empty());
    while i < v.len()
        invariant
            i <= v.len(),
            v@ == s@,
            done.deep_view().push(cur@) == pieces(v@.take(i as int), set),
        decreases v.len() - i,
    {
        let c = v[i];
        proof {
            assert(v@.take(i + 1).drop_last() =~= v@.take(i as int));
            lemma_pieces_nonempty(v@.take(i as int), set);
        }
        if char_in_set(set, c) {
            let ghost before = done.deep_view();
            let ghost piece = cur@;
            done.push(cur);
            cur = String::new();
            assert(done.deep_view() =~= before.push(piece));
        } else {
            push_char(&mut cur, c);
        }
        i = i + 1;
    }
    assert(v@.take(v.len() as int) =~= v@);
    done.push(cur);
    done
}

} // verus!
