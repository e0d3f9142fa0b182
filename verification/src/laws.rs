//! Properties that hold of every page, every text and every rendering.

pub mod plain;
pub mod query;
pub mod styling;
pub mod choices;
pub mod listing;
pub mod fields;

use crate::model::{code_of, form_encoded_byte, form_encoded_text, has_cjk, Language};
use crate::parse::example::{examples_of, pair_of_item};
use crate::parse::{en, ko};
use crate::parse::{
    joined, nonblank, nonempty, select, somes, suggestions_of, texts_of,
};
use crate::render::{lines_text, rendered};
use crate::telegram::{
    escaped_char, html_escaped, html_unescaped, reply_close, reply_of, reply_open,
};
use crate::text::{
    in_set, is_whitespace, pieces, rejoined, stripped, stripped_end, stripped_start, trimmed, CharSet,
};
use vstd::prelude::*;

verus! {

// ---------------------------------------------------------------------------
// Helpers on sequences

/// Every value that `somes` keeps satisfies what every `Some` entry satisfies.
pub proof fn lemma_somes_all<T>(s: Seq<Option<T>>, p: spec_fn(T) -> bool)
    requires
        forall|i: int| 0 <= i < s.len() ==> (#[trigger] s[i] matches Some(v) ==> p(v)),
    ensures
        forall|i: int| 0 <= i < somes(s).len() ==> p(#[trigger] somes(s)[i]),
    decreases s.len(),
{
    if s.len() > 0 {
        let init = s.drop_last();
        assert forall|i: int| 0 <= i < init.len() implies (#[trigger] init[i] matches Some(v)
            ==> p(v)) by {
            assert(init[i] == s[i]);
        }
        lemma_somes_all(init, p);
        let last = s[s.len() - 1];
        assert(last == s.last());
        let a = somes(init);
        match last {
            Some(x) => {
                assert(p(x));
                assert(somes(s) == a.push(x));
                assert forall|i: int| 0 <= i < somes(s).len() implies p(#[trigger] somes(s)[i]) by {
                    if i < a.len() {
                        assert(somes(s)[i] == a[i]);
                    }
                }
            },
            None => {
                assert(somes(s) == a);
            },
        }
    }
}

/// Every text that `nonblank` keeps holds a character.
pub proof fn lemma_nonblank_all(s: Seq<Seq<char>>)
    ensures
        forall|i: int| 0 <= i < nonblank(s).len() ==> (#[trigger] nonblank(s)[i]).len() > 0,
{
    let opts = s.map_values(|t: Seq<char>| nonempty(t));
    lemma_somes_all(opts, |t: Seq<char>| t.len() > 0);
}

/// Every element of a joined sequence satisfies what every element of every
/// part satisfies.
pub proof fn lemma_joined_all<T>(s: Seq<Seq<T>>, p: spec_fn(T) -> bool)
    requires
        forall|i: int, j: int| 0 <= i < s.len() && 0 <= j < s[i].len() ==> p(#[trigger] s[i][j]),
    ensures
        forall|k: int| 0 <= k < joined(s).len() ==> p(#[trigger] joined(s)[k]),
    decreases s.len(),
{
    if s.len() > 0 {
        let init = s.drop_last();
        assert forall|i: int, j: int| 0 <= i < init.len() && 0 <= j < init[i].len() implies p(
            #[trigger] init[i][j],
        ) by {
            assert(init[i] == s[i]);
        }
        lemma_joined_all(init, p);
        let a = joined(init);
        let b = s.last();
        assert forall|k: int| 0 <= k < joined(s).len() implies p(#[trigger] joined(s)[k]) by {
            assert(joined(s) == a + b);
            if k >= a.len() {
                assert(b == s[s.len() - 1]);
                assert(joined(s)[k] == s[s.len() - 1][k - a.len()]);
            } else {
                assert(joined(s)[k] == a[k]);
            }
        }
    }
}

// ---------------------------------------------------------------------------
// Text

/// `stripped_start` keeps a suffix of the text that does not start with a
/// character of the set.
pub proof fn lemma_stripped_start(s: Seq<char>, set: CharSet)
    ensures
        stripped_start(s, set).len() <= s.len(),
        stripped_start(s, set) == s.subrange(s.len() - stripped_start(s, set).len(), s.len() as int),
        stripped_start(s, set).len() > 0 ==> !in_set(set, stripped_start(s, set)[0]),
    decreases s.len(),
{
    if s.len() > 0 && in_set(set, s[0]) {
        lemma_stripped_start(s.drop_first(), set);
        let r = stripped_start(s.drop_first(), set);
        assert(s.drop_first().subrange(s.len() - 1 - r.len(), s.len() - 1) =~= s.subrange(
            s.len() - r.len(),
            s.len() as int,
        ));
    } else {
        assert(s.subrange(0, s.len() as int) =~= s);
    }
}

/// `stripped_end` keeps a prefix of the text that does not end with a
/// character of the set.
pub proof fn lemma_stripped_end(s: Seq<char>, set: CharSet)
    ensures
        stripped_end(s, set).len() <= s.len(),
        stripped_end(s, set) == s.subrange(0, stripped_end(s, set).len() as int),
        stripped_end(s, set).len() > 0 ==> !in_set(set, stripped_end(s, set).last()),
    decreases s.len(),
{
    if s.len() > 0 && in_set(set, s.last()) {
        lemma_stripped_end(s.drop_last(), set);
        let r = stripped_end(s.drop_last(), set);
        assert(s.drop_last().subrange(0, r.len() as int) =~= s.subrange(0, r.len() as int));
    } else {
        assert(s.subrange(0, s.len() as int) =~= s);
    }
}

/// A text that neither starts nor ends with a character of the set is left
/// as it is.
pub proof fn lemma_stripped_fixed(s: Seq<char>, set: CharSet)
    requires
        s.len() > 0 ==> !in_set(set, s[0]) && !in_set(set, s.last()),
    ensures
        stripped(s, set) == s,
{
}

/// Stripping a set of characters from both ends leaves a text that neither
/// starts nor ends with one of them; stripping again changes nothing.
pub proof fn law_strip_idempotent(s: Seq<char>, set: CharSet)
    ensures
        stripped(s, set).len() > 0 ==> !in_set(set, stripped(s, set)[0]) && !in_set(
            set,
            stripped(s, set).last(),
        ),
        stripped(stripped(s, set), set) == stripped(s, set),
{
    let a = stripped_start(s, set);
    lemma_stripped_start(s, set);
    lemma_stripped_end(a, set);
    let b = stripped_end(a, set);
    if b.len() > 0 {
        assert(b[0] == a[0]);
    }
    lemma_stripped_fixed(b, set);
}

/// Trimming leaves a text without leading or trailing whitespace, and
/// trimming it again changes nothing.
pub proof fn law_trim_idempotent(s: Seq<char>)
    ensures
        trimmed(s).len() > 0 ==> !is_whitespace(trimmed(s)[0]) && !is_whitespace(
            trimmed(s).last(),
        ),
        trimmed(trimmed(s)) == trimmed(s),
{
    law_strip_idempotent(s, CharSet::Whitespace);
}

proof fn lemma_rejoined_extend(ps: Seq<Seq<char>>, sep: char, c: char)
    requires
        ps.len() >= 1,
    ensures
        rejoined(ps.update(ps.len() - 1, ps.last().push(c)), sep) == rejoined(ps, sep).push(c),
{
    let qs = ps.update(ps.len() - 1, ps.last().push(c));
    if ps.len() > 1 {
        assert(qs.drop_last() =~= ps.drop_last());
    }
}

/// Reading the lines of a text without carriage returns and joining them
/// again with line feeds gives the text back, without the line feed that
/// ends it, if any.
pub proof fn law_lines_rejoin(s: Seq<char>)
    requires
        forall|k: int| 0 <= k < s.len() ==> #[trigger] s[k] != '\r',
    ensures
        rejoined(crate::cli::text_lines(s), '\n') == (if s.len() > 0 && s.last() == '\n' {
            s.drop_last()
        } else {
            s
        }),
{
    let set = CharSet::Only('\n');
    let ps = pieces(s, set);
    law_split_rejoin(s, '\n');
    crate::text::lemma_pieces_nonempty(s, set);
    lemma_pieces_avoid_cr(s);
    let kept = if ps.last().len() == 0 {
        ps.drop_last()
    } else {
        ps
    };
    let tl = crate::cli::text_lines(s);
    assert(tl =~= kept) by {
        assert forall|i: int| 0 <= i < kept.len() implies tl[i] == kept[i] by {
            assert(kept[i] == ps[i]);
            assert(crate::cli::without_cr(ps[i]) == ps[i]) by {
                if ps[i].len() > 0 {
                    assert(ps[i].last() == ps[i][ps[i].len() - 1]);
                }
            }
        }
    }
    if ps.last().len() == 0 {
        if ps.len() == 1 {
            assert(s.len() == 0) by {
                if s.len() > 0 {
                    assert(rejoined(ps, '\n') == ps[0]);
                }
            }
            assert(rejoined(kept, '\n') =~= s);
        } else {
            assert(rejoined(ps, '\n') == rejoined(ps.drop_last(), '\n').push('\n') + ps.last());
            assert(rejoined(ps.drop_last(), '\n').push('\n') + ps.last() =~= rejoined(
                ps.drop_last(),
                '\n',
            ).push('\n'));
            assert(s.last() == '\n');
            assert(s.drop_last() =~= rejoined(ps.drop_last(), '\n'));
        }
    } else {
        if s.len() > 0 && s.last() == '\n' {
            assert(ps.last().len() == 0) by {
                assert(s.drop_last() + seq!['\n'] =~= s);
                assert(crate::text::in_set(set, s.last()));
            }
        }
    }
}

/// No piece of a text without carriage returns holds one.
proof fn lemma_pieces_avoid_cr(s: Seq<char>)
    requires
        forall|k: int| 0 <= k < s.len() ==> #[trigger] s[k] != '\r',
    ensures
        forall|i: int, j: int|
            0 <= i < pieces(s, CharSet::Only('\n')).len() && 0 <= j < pieces(
                s,
                CharSet::Only('\n'),
            )[i].len() ==> #[trigger] pieces(s, CharSet::Only('\n'))[i][j] != '\r',
    decreases s.len(),
{
    if s.len() > 0 {
        let init = s.drop_last();
        assert forall|k: int| 0 <= k < init.len() implies #[trigger] init[k] != '\r' by {
            assert(init[k] == s[k]);
        }
        lemma_pieces_avoid_cr(init);
        crate::text::lemma_pieces_nonempty(init, CharSet::Only('\n'));
        assert(s.last() == s[s.len() - 1]);
    }
}

/// Splitting a text at a character and joining the pieces again with that
/// character gives back the text, and no piece holds the character.
pub proof fn law_split_rejoin(s: Seq<char>, sep: char)
    ensures
        rejoined(pieces(s, CharSet::Only(sep)), sep) == s,
        forall|i: int, j: int|
            0 <= i < pieces(s, CharSet::Only(sep)).len() && 0 <= j < pieces(
                s,
                CharSet::Only(sep),
            )[i].len() ==> #[trigger] pieces(s, CharSet::Only(sep))[i][j] != sep,
    decreases s.len(),
{
    let set = CharSet::Only(sep);
    if s.len() == 0 {
        assert(rejoined(pieces(s, set), sep) =~= s);
    } else {
        let init = s.drop_last();
        law_split_rejoin(init, sep);
        crate::text::lemma_pieces_nonempty(init, set);
        let ps = pieces(init, set);
        if s.last() == sep {
            assert(pieces(s, set) == ps.push(Seq::<char>::empty()));
            assert(pieces(s, set).drop_last() =~= ps);
            assert(rejoined(pieces(s, set), sep) =~= s);
            assert forall|i: int, j: int|
                0 <= i < pieces(s, set).len() && 0 <= j < pieces(s, set)[i].len() implies
                #[trigger] pieces(s, set)[i][j] != sep by {
                assert(i < ps.len());
                assert(pieces(s, set)[i] == ps[i]);
            }
        } else {
            lemma_rejoined_extend(ps, sep, s.last());
            assert(rejoined(pieces(s, set), sep) =~= s);
            assert forall|i: int, j: int|
                0 <= i < pieces(s, set).len() && 0 <= j < pieces(s, set)[i].len() implies
                #[trigger] pieces(s, set)[i][j] != sep by {
                if i < ps.len() - 1 {
                    assert(pieces(s, set)[i] == ps[i]);
                } else {
                    assert(pieces(s, set)[i] == ps.last().push(s.last()));
                    if j < ps.last().len() {
                        assert(ps.last() == ps[ps.len() - 1]);
                        assert(pieces(s, set)[i][j] == ps[ps.len() - 1][j]);
                    }
                }
            }
        }
    }
}

/// No piece of a split holds a character of the set it was split at.
pub proof fn lemma_pieces_avoid(s: Seq<char>, set: CharSet)
    ensures
        forall|i: int, j: int|
            0 <= i < pieces(s, set).len() && 0 <= j < pieces(s, set)[i].len() ==> !in_set(
                set,
                #[trigger] pieces(s, set)[i][j],
            ),
    decreases s.len(),
{
    if s.len() > 0 {
        let init = s.drop_last();
        lemma_pieces_avoid(init, set);
        crate::text::lemma_pieces_nonempty(init, set);
        let ps = pieces(init, set);
        assert forall|i: int, j: int|
            0 <= i < pieces(s, set).len() && 0 <= j < pieces(s, set)[i].len() implies !in_set(
            set,
            #[trigger] pieces(s, set)[i][j],
        ) by {
            if in_set(set, s.last()) {
                assert(i < ps.len());
                assert(pieces(s, set)[i] == ps[i]);
            } else if i < ps.len() - 1 {
                assert(pieces(s, set)[i] == ps[i]);
            } else {
                assert(pieces(s, set)[i] == ps.last().push(s.last()));
                if j < ps.last().len() {
                    assert(ps.last() == ps[ps.len() - 1]);
                    assert(pieces(s, set)[i][j] == ps[ps.len() - 1][j]);
                }
            }
        }
    }
}

/// Every character of a stripped or trimmed text is a character of the text.
pub proof fn lemma_stripped_within(s: Seq<char>, strip_set: CharSet, set: CharSet)
    requires
        forall|j: int| 0 <= j < s.len() ==> !in_set(set, #[trigger] s[j]),
    ensures
        forall|j: int|
            0 <= j < stripped_start(s, strip_set).len() ==> !in_set(
                set,
                #[trigger] stripped_start(s, strip_set)[j],
            ),
        forall|j: int|
            0 <= j < stripped_end(s, strip_set).len() ==> !in_set(
                set,
                #[trigger] stripped_end(s, strip_set)[j],
            ),
{
    lemma_stripped_start(s, strip_set);
    lemma_stripped_end(s, strip_set);
    let a = stripped_start(s, strip_set);
    let b = stripped_end(s, strip_set);
    assert forall|j: int| 0 <= j < a.len() implies !in_set(set, #[trigger] a[j]) by {
        assert(a[j] == s[s.len() - a.len() + j]);
    }
    assert forall|j: int| 0 <= j < b.len() implies !in_set(set, #[trigger] b[j]) by {
        assert(b[j] == s[j]);
    }
}

// ---------------------------------------------------------------------------
// Pages

/// Every example pair of a page has both a sentence and a translation.
pub proof fn law_examples_complete(body: Seq<char>)
    ensures
        forall|i: int|
            0 <= i < examples_of(body).len() ==> (#[trigger] examples_of(body)[i]).0.len() > 0
                && examples_of(body)[i].1.len() > 0,
{
    let modules = select(body, crate::parse::example::EXAMPLE_MODULE@);
    if modules.len() > 0 {
        let items = select(modules[0], crate::parse::example::EXAMPLE_ITEM@);
        let opts = items.map_values(|item: Seq<char>| pair_of_item(item));
        lemma_somes_all(opts, |p: (Seq<char>, Seq<char>)| p.0.len() > 0 && p.1.len() > 0);
    }
}

/// Every suggestion of a page without translation holds a character.
pub proof fn law_suggestions_nonblank(body: Seq<char>)
    ensures
        forall|i: int|
            0 <= i < suggestions_of(body).len() ==> (#[trigger] suggestions_of(body)[i]).len() > 0,
{
    let containers = select(body, crate::parse::MAYBE_CONTAINER@);
    if containers.len() > 0 {
        lemma_nonblank_all(texts_of(select(containers[0], crate::parse::MAYBE_WORD@)));
    }
}

/// Every meaning of an English to Chinese page has a definition.
pub proof fn law_english_meanings_defined(body: Seq<char>)
    ensures
        forall|i: int|
            0 <= i < en::from_english(body).meanings.len() ==> (
            #[trigger] en::from_english(body).meanings[i]).1.len() > 0,
{
    let els = select(body, en::MEANINGS@);
    let opts = els.map_values(|el: Seq<char>| en::meaning_of(el));
    assert forall|i: int| 0 <= i < opts.len() implies (#[trigger] opts[i] matches Some(m) ==> m.1.len()
        > 0) by {
        if let Some(t) = crate::parse::first_text(els[i], en::DEFINITIONS@) {
            crate::text::lemma_pieces_nonempty(t, CharSet::Only('；'));
        }
    }
    lemma_somes_all(opts, |m: (Option<Seq<char>>, Seq<Seq<char>>)| m.1.len() > 0);
}

/// A numbered Korean definition list such as `1.a 2.b` reads as definitions
/// that are nonempty and hold none of the digits `1` to `9`.
pub proof fn law_korean_numbered_definitions(raw: Seq<char>)
    ensures
        forall|i: int|
            0 <= i < ko::numbered_definitions(raw).len() ==> (#[trigger] ko::numbered_definitions(
                raw,
            )[i]).len() > 0,
        forall|i: int, j: int|
            0 <= i < ko::numbered_definitions(raw).len() && 0 <= j
                < ko::numbered_definitions(raw)[i].len() ==> !in_set(
                CharSet::NonzeroDigit,
                #[trigger] ko::numbered_definitions(raw)[i][j],
            ),
{
    let set = CharSet::NonzeroDigit;
    let ps = pieces(raw, set);
    lemma_pieces_avoid(raw, set);
    let opts = ps.map_values(|p: Seq<char>| ko::numbered_definition(p));
    let good = |d: Seq<char>| d.len() > 0 && forall|j: int| 0 <= j < d.len() ==> !in_set(set, #[trigger] d[j]);
    assert forall|i: int| 0 <= i < opts.len() implies (#[trigger] opts[i] matches Some(d) ==> good(d)) by {
        let p = ps[i];
        assert forall|j: int| 0 <= j < p.len() implies !in_set(set, #[trigger] p[j]) by {
            assert(ps[i][j] == p[j]);
        }
        lemma_stripped_within(p, CharSet::Whitespace, set);
        let a = stripped_start(p, CharSet::Whitespace);
        lemma_stripped_within(a, CharSet::Whitespace, set);
        let t = stripped_end(a, CharSet::Whitespace);
        assert(t == trimmed(p));
        lemma_stripped_within(t, CharSet::Only('.'), set);
    }
    lemma_somes_all(opts, good);
    let defs = ko::numbered_definitions(raw);
    assert forall|i: int, j: int| 0 <= i < defs.len() && 0 <= j < defs[i].len() implies !in_set(
        set,
        #[trigger] defs[i][j],
    ) by {
        assert(good(defs[i]));
    }
}

// ---------------------------------------------------------------------------
// Rendering

/// A rendering never ends with whitespace.
pub proof fn law_rendered_trimmed(lines: Seq<Seq<char>>)
    ensures
        rendered(lines).len() > 0 ==> !is_whitespace(rendered(lines).last()),
{
    lemma_stripped_end(lines_text(lines), CharSet::Whitespace);
}

// ---------------------------------------------------------------------------
// Languages

/// Different languages have different codes: a code names one language.
pub proof fn law_language_codes_distinct(a: Language, b: Language)
    ensures
        a != b ==> code_of(a) != code_of(b),
{
    reveal_strlit("en");
    reveal_strlit("fr");
    reveal_strlit("ko");
    reveal_strlit("ja");
    if a != b {
        assert(code_of(a)[0] != code_of(b)[0] || code_of(a)[1] != code_of(b)[1]);
    }
}

/// A text is read as Chinese exactly when one of its characters, at any
/// position, is a CJK unified ideograph (U+4E00 to U+9FFF).
pub proof fn law_cjk_anywhere(s: Seq<char>)
    ensures
        has_cjk(s) <==> exists|i: int|
            0 <= i < s.len() && 0x4E00 <= (#[trigger] s[i]) as u32 && (s[i] as u32) <= 0x9FFF,
        forall|i: int|
            0 <= i < s.len() && 0x4E00 <= (#[trigger] s[i]) as u32 && (s[i] as u32) <= 0x9FFF
                ==> has_cjk(s),
{
}

// ---------------------------------------------------------------------------
// Voice addresses

/// A form-encoded text holds neither `&` nor `=`.
pub proof fn law_form_encoding_separators(t: Seq<char>)
    ensures
        forall|k: int|
            0 <= k < form_encoded_text(t).len() ==> #[trigger] form_encoded_text(t)[k] != '&'
                && form_encoded_text(t)[k] != '=',
{
    let bytes = vstd::utf8::encode_utf8(t);
    let parts = bytes.map_values(|b: u8| form_encoded_byte(b));
    assert forall|i: int, j: int| 0 <= i < parts.len() && 0 <= j < parts[i].len() implies ({
        let c = #[trigger] parts[i][j];
        c != '&' && c != '='
    }) by {
        let b = bytes[i];
        assert(parts[i] == form_encoded_byte(b));
        let n = b / 16;
        let m = b % 16;
        assert(n < 16 && m < 16);
    }
    lemma_joined_all(parts, |c: char| c != '&' && c != '=');
}

// ---------------------------------------------------------------------------
// Chat replies

/// Escaped text holds no `<` and no `>`: whatever the translation says, it
/// cannot open or close a tag of the reply, which is the fixed opening, the
/// escaped text and the fixed closing.
pub proof fn law_reply_escapes_markup(output: Seq<char>)
    ensures
        reply_of(output) == reply_open() + html_escaped(output) + reply_close(),
        forall|k: int|
            0 <= k < html_escaped(output).len() ==> #[trigger] html_escaped(output)[k] != '<'
                && html_escaped(output)[k] != '>',
{
    let parts = output.map_values(|c: char| escaped_char(c));
    assert forall|i: int, j: int| 0 <= i < parts.len() && 0 <= j < parts[i].len() implies ({
        let c = #[trigger] parts[i][j];
        c != '<' && c != '>'
    }) by {
        assert(parts[i] == escaped_char(output[i]));
    }
    lemma_joined_all(parts, |c: char| c != '<' && c != '>');
}

/// A joined sequence is its first part, then the rest joined.
pub proof fn lemma_joined_front<T>(s: Seq<Seq<T>>)
    requires
        s.len() > 0,
    ensures
        joined(s) == s[0] + joined(s.drop_first()),
    decreases s.len(),
{
    if s.len() == 1 {
        assert(s.drop_last() =~= Seq::<Seq<T>>::empty());
        assert(s.drop_first() =~= Seq::<Seq<T>>::empty());
        assert(joined(s) =~= s[0]);
        assert(s[0] + joined(s.drop_first()) =~= s[0]);
    } else {
        let init = s.drop_last();
        lemma_joined_front(init);
        assert(init.drop_first() =~= s.drop_first().drop_last());
        assert(s.drop_first().last() == s.last());
        assert(init[0] == s[0]);
        assert(joined(s) =~= s[0] + joined(s.drop_first()));
    }
}

/// Escaping text and reading the HTML back gives the text again: the reply
/// shows the rendering verbatim.
pub proof fn law_reply_shows_output_verbatim(output: Seq<char>)
    ensures
        html_unescaped(html_escaped(output)) == output,
    decreases output.len(),
{
    if output.len() > 0 {
        let c = output[0];
        let rest = output.drop_first();
        let parts = output.map_values(|x: char| escaped_char(x));
        assert(parts.drop_first() =~= rest.map_values(|x: char| escaped_char(x)));
        lemma_joined_front(parts);
        let e = html_escaped(rest);
        assert(html_escaped(output) == escaped_char(c) + e);
        law_reply_shows_output_verbatim(rest);
        let t = escaped_char(c) + e;
        if c == '&' {
            assert(t.subrange(0, 5) =~= seq!['&', 'a', 'm', 'p', ';']);
            assert(t.subrange(5, t.len() as int) =~= e);
        } else if c == '<' {
            assert(t.subrange(0, 4) =~= seq!['&', 'l', 't', ';']);
            assert(t.subrange(4, t.len() as int) =~= e);
            assert(t.len() >= 5 ==> t.subrange(0, 5) != seq!['&', 'a', 'm', 'p', ';']) by {
                if t.len() >= 5 {
                    assert(t.subrange(0, 5)[1] != seq!['&', 'a', 'm', 'p', ';'][1]);
                }
            }
        } else if c == '>' {
            assert(t.subrange(0, 4) =~= seq!['&', 'g', 't', ';']);
            assert(t.subrange(4, t.len() as int) =~= e);
            assert(t.len() >= 5 ==> t.subrange(0, 5) != seq!['&', 'a', 'm', 'p', ';']) by {
                if t.len() >= 5 {
                    assert(t.subrange(0, 5)[1] != seq!['&', 'a', 'm', 'p', ';'][1]);
                }
            }
            assert(t.subrange(0, 4) != seq!['&', 'l', 't', ';']) by {
                assert(t.subrange(0, 4)[1] != seq!['&', 'l', 't', ';'][1]);
            }
        } else {
            assert(t[0] == c);
            assert(t.len() >= 5 ==> t.subrange(0, 5)[0] != '&');
            assert(t.len() >= 4 ==> t.subrange(0, 4)[0] != '&');
            assert(t.subrange(1, t.len() as int) =~= e);
        }
        assert(html_unescaped(t) =~= output);
    }
}

} // verus!
