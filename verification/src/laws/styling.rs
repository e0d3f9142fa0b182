//! The colored rendering is the plain one with color codes added: removing
//! every escape sequence from a colored line gives the plain line.

use crate::parse::{en, fr, ja, ko};
use crate::parse::joined;
use crate::rdict::{translation_lines, TranslationDataView};
use crate::render::en::{
    from_english_lines, meaning_block, meanings_section, pronunciation_section, to_english_lines,
};
use crate::render::fr::{from_french_lines, phonetic_section, to_french_lines};
use crate::render::ja::{
    exam_section, from_japanese_lines, reading_section, senses_section as kind_senses_section,
    to_japanese_lines, translation_line,
};
use crate::render::ko::{sense_block, senses_section};
use crate::render::{
    bullet_section, bullets, example_lines, examples_section, header, heading,
    not_found_lines, optional_line, painted, sgr, Tone,
};
use super::plain::{
    lemma_cat, lemma_layout_texts,
    from_english_no_escape, from_french_no_escape, from_japanese_no_escape,
    korean_meanings_no_escape, lines_no_escape, no_escape,
    opt_no_escape, opt_pair_no_escape, pairs_no_escape, to_english_no_escape,
    to_french_no_escape, to_japanese_no_escape, translation_no_escape,
};
use vstd::prelude::*;

verus! {

/// `s` without its escape sequences, read from a state inside one
/// (`in_seq`) or outside: an escape character opens a sequence, which the
/// next `m` closes; the characters outside sequences are kept.
pub open spec fn unstyled_from(s: Seq<char>, in_seq: bool) -> Seq<char>
    decreases s.len(),
{
    if s.len() == 0 {
        Seq::empty()
    } else if in_seq {
        unstyled_from(s.drop_first(), s[0] != 'm')
    } else if s[0] == '\u{1b}' {
        unstyled_from(s.drop_first(), true)
    } else {
        seq![s[0]] + unstyled_from(s.drop_first(), false)
    }
}

/// Whether reading `s` from the state `in_seq` ends inside a sequence.
pub open spec fn ends_in_seq(s: Seq<char>, in_seq: bool) -> bool
    decreases s.len(),
{
    if s.len() == 0 {
        in_seq
    } else if in_seq {
        ends_in_seq(s.drop_first(), s[0] != 'm')
    } else {
        ends_in_seq(s.drop_first(), s[0] == '\u{1b}')
    }
}

/// `s` without its escape sequences.
pub open spec fn unstyled(s: Seq<char>) -> Seq<char> {
    unstyled_from(s, false)
}

/// The colored text `c` shows the plain text `p`: without its escape
/// sequences it is `p`, and it ends outside a sequence.
pub open spec fn shows(c: Seq<char>, p: Seq<char>) -> bool {
    unstyled(c) == p && !ends_in_seq(c, false)
}

/// Each colored line of `cs` shows the plain line of `ps` at its place.
pub open spec fn lines_show(cs: Seq<Seq<char>>, ps: Seq<Seq<char>>) -> bool {
    cs.len() == ps.len() && forall|i: int| 0 <= i < cs.len() ==> shows(#[trigger] cs[i], ps[i])
}

proof fn lemma_unstyled_cat(a: Seq<char>, b: Seq<char>, st: bool)
    ensures
        unstyled_from(a + b, st) == unstyled_from(a, st) + unstyled_from(b, ends_in_seq(a, st)),
        ends_in_seq(a + b, st) == ends_in_seq(b, ends_in_seq(a, st)),
    decreases a.len(),
{
    if a.len() == 0 {
        assert(a + b =~= b);
        assert(unstyled_from(a, st) + unstyled_from(b, st) =~= unstyled_from(b, st));
    } else {
        assert((a + b)[0] == a[0]);
        assert((a + b).drop_first() =~= a.drop_first() + b);
        let next = if st {
            a[0] != 'm'
        } else {
            a[0] == '\u{1b}'
        };
        lemma_unstyled_cat(a.drop_first(), b, next);
        if !st && a[0] != '\u{1b}' {
            assert(seq![a[0]] + unstyled_from(a.drop_first(), false) + unstyled_from(
                b,
                ends_in_seq(a.drop_first(), false),
            ) =~= seq![a[0]] + (unstyled_from(a.drop_first(), false) + unstyled_from(
                b,
                ends_in_seq(a.drop_first(), false),
            )));
        }
    }
}

proof fn lemma_one(c: char, st: bool)
    ensures
        unstyled_from(seq![c], st) == (if !st && c != '\u{1b}' {
            seq![c]
        } else {
            Seq::<char>::empty()
        }),
        ends_in_seq(seq![c], st) == (if st {
            c != 'm'
        } else {
            c == '\u{1b}'
        }),
{
    let s = seq![c];
    assert(s.drop_first() =~= Seq::<char>::empty());
    assert(s[0] == c);
    assert(unstyled_from(Seq::<char>::empty(), true) == Seq::<char>::empty());
    assert(unstyled_from(Seq::<char>::empty(), false) == Seq::<char>::empty());
    assert(ends_in_seq(Seq::<char>::empty(), true));
    assert(!ends_in_seq(Seq::<char>::empty(), false));
    if !st && c != '\u{1b}' {
        assert(seq![c] + Seq::<char>::empty() =~= seq![c]);
    }
}

proof fn lemma_shows_cat(c1: Seq<char>, p1: Seq<char>, c2: Seq<char>, p2: Seq<char>)
    requires
        shows(c1, p1),
        shows(c2, p2),
    ensures
        shows(c1 + c2, p1 + p2),
{
    lemma_unstyled_cat(c1, c2, false);
}

proof fn lemma_shows_text(t: Seq<char>)
    requires
        no_escape(t),
    ensures
        shows(t, t),
    decreases t.len(),
{
    if t.len() > 0 {
        let r = t.drop_first();
        assert(no_escape(r)) by {
            assert forall|k: int| 0 <= k < r.len() implies #[trigger] r[k] != '\u{1b}' by {
                assert(r[k] == t[k + 1]);
            }
        }
        lemma_shows_text(r);
        assert(t[0] != '\u{1b}');
        lemma_one(t[0], false);
        lemma_unstyled_cat(seq![t[0]], r, false);
        let u = seq![t[0]] + r;
        assert(u =~= t);
        assert(unstyled_from(u, false) == seq![t[0]] + unstyled_from(r, false));
        assert(!ends_in_seq(u, false));
        assert(unstyled_from(u, false) =~= t);
        assert(unstyled_from(t, false) == t);
        assert(!ends_in_seq(t, false));
    } else {
        assert(unstyled_from(t, false) =~= t);
    }
}

/// Inside a sequence, characters other than `m` are dropped.
proof fn lemma_inside(x: Seq<char>)
    requires
        forall|k: int| 0 <= k < x.len() ==> #[trigger] x[k] != 'm',
    ensures
        unstyled_from(x, true) == Seq::<char>::empty(),
        ends_in_seq(x, true),
    decreases x.len(),
{
    if x.len() > 0 {
        let r = x.drop_first();
        assert forall|k: int| 0 <= k < r.len() implies #[trigger] r[k] != 'm' by {
            assert(r[k] == x[k + 1]);
        }
        lemma_inside(r);
    }
}

/// An escape sequence `ESC [ code m`, with `code` free of `m`, shows nothing.
proof fn lemma_sequence(code: Seq<char>)
    requires
        forall|k: int| 0 <= k < code.len() ==> #[trigger] code[k] != 'm',
    ensures
        shows(seq!['\u{1b}', '['] + code + seq!['m'], Seq::<char>::empty()),
{
    let x = seq!['['] + code;
    assert forall|k: int| 0 <= k < x.len() implies #[trigger] x[k] != 'm' by {
        if k > 0 {
            assert(x[k] == code[k - 1]);
        }
    }
    lemma_inside(x);
    lemma_unstyled_cat(seq!['\u{1b}'], x + seq!['m'], false);
    lemma_unstyled_cat(x, seq!['m'], true);
    assert(seq!['\u{1b}', '['] + code + seq!['m'] =~= seq!['\u{1b}'] + (x + seq!['m']));
    assert(seq!['\u{1b}'].drop_first() =~= Seq::<char>::empty());
    assert(seq!['m'].drop_first() =~= Seq::<char>::empty());
    lemma_one('\u{1b}', false);
    lemma_one('m', true);
}

proof fn lemma_shows_painted(tone: Tone, s: Seq<char>)
    requires
        no_escape(s),
    ensures
        shows(painted(true, tone, s), painted(false, tone, s)),
{
    let code = sgr(tone);
    assert forall|k: int| 0 <= k < code.len() implies #[trigger] code[k] != 'm' by {}
    let reset = seq!['0'];
    assert forall|k: int| 0 <= k < reset.len() implies #[trigger] reset[k] != 'm' by {}
    lemma_sequence(code);
    lemma_sequence(reset);
    lemma_shows_text(s);
    let open = seq!['\u{1b}', '['] + code + seq!['m'];
    let close = seq!['\u{1b}', '['] + reset + seq!['m'];
    lemma_shows_cat(open, Seq::empty(), s, s);
    lemma_shows_cat(open + s, Seq::<char>::empty() + s, close, Seq::empty());
    assert(close =~= seq!['\u{1b}', '[', '0', 'm']);
    assert(painted(true, tone, s) =~= open + s + close);
    assert(Seq::<char>::empty() + s + Seq::<char>::empty() =~= s);
}

proof fn lemma_lines_cat(c1: Seq<Seq<char>>, p1: Seq<Seq<char>>, c2: Seq<Seq<char>>, p2: Seq<Seq<char>>)
    requires
        lines_show(c1, p1),
        lines_show(c2, p2),
    ensures
        lines_show(c1 + c2, p1 + p2),
{
    assert forall|i: int| 0 <= i < (c1 + c2).len() implies shows(#[trigger] (c1 + c2)[i], (p1 + p2)[i]) by {
        if i < c1.len() {
            assert((c1 + c2)[i] == c1[i] && (p1 + p2)[i] == p1[i]);
        } else {
            assert((c1 + c2)[i] == c2[i - c1.len()] && (p1 + p2)[i] == p2[i - c1.len()]);
        }
    }
}

proof fn lemma_lines_joined(cs: Seq<Seq<Seq<char>>>, ps: Seq<Seq<Seq<char>>>)
    requires
        cs.len() == ps.len(),
        forall|i: int| 0 <= i < cs.len() ==> lines_show(#[trigger] cs[i], ps[i]),
    ensures
        lines_show(joined(cs), joined(ps)),
    decreases cs.len(),
{
    if cs.len() > 0 {
        let ci = cs.drop_last();
        let pi = ps.drop_last();
        assert forall|i: int| 0 <= i < ci.len() implies lines_show(#[trigger] ci[i], pi[i]) by {
            assert(ci[i] == cs[i] && pi[i] == ps[i]);
        }
        lemma_lines_joined(ci, pi);
        assert(lines_show(cs.last(), ps.last())) by {
            assert(cs.last() == cs[cs.len() - 1] && ps.last() == ps[ps.len() - 1]);
        }
        lemma_lines_cat(joined(ci), joined(pi), cs.last(), ps.last());
    }
}

proof fn lemma_shows_blank()
    ensures
        lines_show(seq![Seq::<char>::empty()], seq![Seq::<char>::empty()]),
{
    lemma_shows_text(Seq::empty());
}

proof fn lemma_prefixed(pre: Seq<char>, tone: Tone, s: Seq<char>)
    requires
        no_escape(pre),
        no_escape(s),
    ensures
        shows(pre + painted(true, tone, s), pre + painted(false, tone, s)),
{
    lemma_shows_text(pre);
    lemma_shows_painted(tone, s);
    lemma_shows_cat(pre, pre, painted(true, tone, s), painted(false, tone, s));
}

proof fn lemma_framed(pre: Seq<char>, tone: Tone, s: Seq<char>, post: Seq<char>)
    requires
        no_escape(pre),
        no_escape(s),
        no_escape(post),
    ensures
        shows(pre + painted(true, tone, s) + post, pre + painted(false, tone, s) + post),
{
    lemma_prefixed(pre, tone, s);
    lemma_shows_text(post);
    lemma_shows_cat(pre + painted(true, tone, s), pre + painted(false, tone, s), post, post);
}

proof fn lemma_same_line(t: Seq<char>)
    requires
        no_escape(t),
    ensures
        lines_show(seq![t], seq![t]),
{
    lemma_shows_text(t);
}

proof fn lemma_bullets_show(items: Seq<Seq<char>>)
    requires
        lines_no_escape(items),
    ensures
        lines_show(bullets(true, items), bullets(false, items)),
{
    lemma_layout_texts();
    assert forall|i: int| 0 <= i < bullets(true, items).len() implies shows(
        #[trigger] bullets(true, items)[i],
        bullets(false, items)[i],
    ) by {
        assert(no_escape(items[i]));
        lemma_prefixed("* "@, Tone::Primary, items[i]);
    }
}

proof fn lemma_heading_show(title: Seq<char>)
    requires
        no_escape(title),
    ensures
        lines_show(seq![heading(true, title)], seq![heading(false, title)]),
{
    lemma_shows_painted(Tone::Muted, title);
}

proof fn lemma_bullet_section_show(title: Seq<char>, items: Seq<Seq<char>>)
    requires
        no_escape(title),
        lines_no_escape(items),
    ensures
        lines_show(bullet_section(true, title, items), bullet_section(false, title, items)),
{
    if items.len() > 0 {
        lemma_heading_show(title);
        lemma_bullets_show(items);
        lemma_shows_blank();
        lemma_lines_cat(
            seq![heading(true, title)],
            seq![heading(false, title)],
            bullets(true, items),
            bullets(false, items),
        );
        lemma_lines_cat(
            seq![heading(true, title)] + bullets(true, items),
            seq![heading(false, title)] + bullets(false, items),
            seq![Seq::<char>::empty()],
            seq![Seq::<char>::empty()],
        );
    }
}

proof fn lemma_examples_show(ps: Seq<(Seq<char>, Seq<char>)>)
    requires
        pairs_no_escape(ps),
    ensures
        lines_show(examples_section(true, ps), examples_section(false, ps)),
{
    if ps.len() > 0 {
        lemma_layout_texts();
        let cb = ps.map_values(|p: (Seq<char>, Seq<char>)| example_lines(true, p));
        let pb = ps.map_values(|p: (Seq<char>, Seq<char>)| example_lines(false, p));
        assert forall|i: int| 0 <= i < cb.len() implies lines_show(#[trigger] cb[i], pb[i]) by {
            assert(no_escape(ps[i].0) && no_escape(ps[i].1));
            lemma_prefixed("* "@, Tone::Primary, ps[i].0);
            lemma_prefixed("  "@, Tone::Secondary, ps[i].1);
            assert(cb[i] == example_lines(true, ps[i]));
            assert(pb[i] == example_lines(false, ps[i]));
        }
        lemma_lines_joined(cb, pb);
        lemma_heading_show("# Examples"@);
        lemma_shows_blank();
        lemma_lines_cat(
            seq![heading(true, "# Examples"@)],
            seq![heading(false, "# Examples"@)],
            joined(cb),
            joined(pb),
        );
        lemma_lines_cat(
            seq![heading(true, "# Examples"@)] + joined(cb),
            seq![heading(false, "# Examples"@)] + joined(pb),
            seq![Seq::<char>::empty()],
            seq![Seq::<char>::empty()],
        );
    }
}

proof fn lemma_header_show(word: Seq<char>)
    requires
        no_escape(word),
    ensures
        lines_show(header(true, word), header(false, word)),
{
    lemma_shows_painted(Tone::Bold, word);
    lemma_shows_text(Seq::empty());
}

proof fn lemma_bracket_show(o: Option<Seq<char>>)
    requires
        opt_no_escape(o),
    ensures
        lines_show(
            optional_line(o, |p: Seq<char>| "["@ + p + "]"@),
            optional_line(o, |p: Seq<char>| "["@ + p + "]"@),
        ),
{
    lemma_layout_texts();
    if let Some(p) = o {
        lemma_cat("["@, p);
        lemma_cat("["@ + p, "]"@);
        lemma_shows_text("["@ + p + "]"@);
    }
}

proof fn lemma_accent_show(label: Seq<char>, o: Option<Seq<char>>)
    requires
        no_escape(label),
        opt_no_escape(o),
    ensures
        lines_show(
            optional_line(o, |t: Seq<char>| label + painted(true, Tone::Primary, t) + "]"@),
            optional_line(o, |t: Seq<char>| label + painted(false, Tone::Primary, t) + "]"@),
        ),
{
    lemma_layout_texts();
    if let Some(t) = o {
        lemma_framed(label, Tone::Primary, t, "]"@);
    }
}

proof fn lemma_three(
    a: Seq<Seq<char>>,
    pa: Seq<Seq<char>>,
    b: Seq<Seq<char>>,
    pb: Seq<Seq<char>>,
    c: Seq<Seq<char>>,
    pc: Seq<Seq<char>>,
)
    requires
        lines_show(a, pa),
        lines_show(b, pb),
        lines_show(c, pc),
    ensures
        lines_show(a + b + c, pa + pb + pc),
{
    lemma_lines_cat(a, pa, b, pb);
    lemma_lines_cat(a + b, pa + pb, c, pc);
}

proof fn lemma_from_english_show(v: en::ToChineseView)
    requires
        from_english_no_escape(v),
    ensures
        lines_show(from_english_lines(true, v), from_english_lines(false, v)),
{
    lemma_layout_texts();
    let cp = pronunciation_section(true, v.pronunciation);
    let pp = pronunciation_section(false, v.pronunciation);
    if v.pronunciation.0 is Some || v.pronunciation.1 is Some {
        lemma_heading_show("# Pronunciation"@);
        lemma_accent_show("英：["@, v.pronunciation.0);
        lemma_accent_show("美：["@, v.pronunciation.1);
        lemma_shows_blank();
        let ca = optional_line(
            v.pronunciation.0,
            |t: Seq<char>| "英：["@ + painted(true, Tone::Primary, t) + "]"@,
        );
        let pa = optional_line(
            v.pronunciation.0,
            |t: Seq<char>| "英：["@ + painted(false, Tone::Primary, t) + "]"@,
        );
        let cb = optional_line(
            v.pronunciation.1,
            |t: Seq<char>| "美：["@ + painted(true, Tone::Primary, t) + "]"@,
        );
        let pb = optional_line(
            v.pronunciation.1,
            |t: Seq<char>| "美：["@ + painted(false, Tone::Primary, t) + "]"@,
        );
        lemma_three(
            seq![heading(true, "# Pronunciation"@)],
            seq![heading(false, "# Pronunciation"@)],
            ca,
            pa,
            cb,
            pb,
        );
        lemma_lines_cat(
            seq![heading(true, "# Pronunciation"@)] + ca + cb,
            seq![heading(false, "# Pronunciation"@)] + pa + pb,
            seq![Seq::<char>::empty()],
            seq![Seq::<char>::empty()],
        );
    }
    assert(lines_show(cp, pp));
    let cm = meanings_section(true, v.meanings);
    let pm = meanings_section(false, v.meanings);
    if v.meanings.len() > 0 {
        let cbs = v.meanings.map_values(
            |m: (Option<Seq<char>>, Seq<Seq<char>>)| meaning_block(true, m),
        );
        let pbs = v.meanings.map_values(
            |m: (Option<Seq<char>>, Seq<Seq<char>>)| meaning_block(false, m),
        );
        assert forall|i: int| 0 <= i < cbs.len() implies lines_show(#[trigger] cbs[i], pbs[i]) by {
            let m = v.meanings[i];
            assert(opt_no_escape(m.0) && lines_no_escape(m.1));
            lemma_bracket_show(m.0);
            lemma_bullets_show(m.1);
            lemma_shows_blank();
            let o = optional_line(m.0, |p: Seq<char>| "["@ + p + "]"@);
            lemma_three(
                o,
                o,
                bullets(true, m.1),
                bullets(false, m.1),
                seq![Seq::<char>::empty()],
                seq![Seq::<char>::empty()],
            );
            assert(cbs[i] == meaning_block(true, m));
            assert(pbs[i] == meaning_block(false, m));
        }
        lemma_lines_joined(cbs, pbs);
        lemma_heading_show("# Meanings"@);
        lemma_lines_cat(
            seq![heading(true, "# Meanings"@)],
            seq![heading(false, "# Meanings"@)],
            joined(cbs),
            joined(pbs),
        );
    }
    assert(lines_show(cm, pm));
    lemma_header_show(v.input_text);
    lemma_examples_show(v.examples);
    lemma_three(
        header(true, v.input_text),
        header(false, v.input_text),
        cp,
        pp,
        cm,
        pm,
    );
    lemma_lines_cat(
        header(true, v.input_text) + cp + cm,
        header(false, v.input_text) + pp + pm,
        examples_section(true, v.examples),
        examples_section(false, v.examples),
    );
}

proof fn lemma_to_english_show(v: en::ToEnglishView)
    requires
        to_english_no_escape(v),
    ensures
        lines_show(to_english_lines(true, v), to_english_lines(false, v)),
{
    lemma_layout_texts();
    lemma_header_show(v.input_text);
    lemma_bullet_section_show("# Meanings"@, v.meanings);
    lemma_examples_show(v.examples);
    lemma_three(
        header(true, v.input_text),
        header(false, v.input_text),
        bullet_section(true, "# Meanings"@, v.meanings),
        bullet_section(false, "# Meanings"@, v.meanings),
        examples_section(true, v.examples),
        examples_section(false, v.examples),
    );
}

proof fn lemma_from_french_show(v: fr::ToChineseView)
    requires
        from_french_no_escape(v),
    ensures
        lines_show(from_french_lines(true, v), from_french_lines(false, v)),
{
    lemma_layout_texts();
    if let Some(t) = v.pronunciation {
        lemma_shows_painted(Tone::Muted, "# Pronunciation"@);
        lemma_framed("["@, Tone::Primary, t, "]"@);
        lemma_shows_text(Seq::empty());
        let c = phonetic_section(true, v.pronunciation);
        let p = phonetic_section(false, v.pronunciation);
        assert forall|i: int| 0 <= i < c.len() implies shows(#[trigger] c[i], p[i]) by {
            if i == 0 {
                assert(c[0] == heading(true, "# Pronunciation"@));
            } else if i == 1 {
                assert(c[1] == "["@ + painted(true, Tone::Primary, t) + "]"@);
                assert(p[1] == "["@ + painted(false, Tone::Primary, t) + "]"@);
            } else {
                assert(c[2] == Seq::<char>::empty() && p[2] == Seq::<char>::empty());
            }
        }
    }
    assert(lines_show(
        phonetic_section(true, v.pronunciation),
        phonetic_section(false, v.pronunciation),
    ));
    lemma_bullet_section_show("# Meanings"@, v.meanings);
    lemma_examples_show(v.examples);
    lemma_three(
        phonetic_section(true, v.pronunciation),
        phonetic_section(false, v.pronunciation),
        bullet_section(true, "# Meanings"@, v.meanings),
        bullet_section(false, "# Meanings"@, v.meanings),
        examples_section(true, v.examples),
        examples_section(false, v.examples),
    );
}

proof fn lemma_to_french_show(v: fr::ToFrenchView)
    requires
        to_french_no_escape(v),
    ensures
        lines_show(to_french_lines(true, v), to_french_lines(false, v)),
{
    lemma_layout_texts();
    lemma_bullet_section_show("# Meanings"@, v.meanings);
    lemma_examples_show(v.examples);
    lemma_lines_cat(
        bullet_section(true, "# Meanings"@, v.meanings),
        bullet_section(false, "# Meanings"@, v.meanings),
        examples_section(true, v.examples),
        examples_section(false, v.examples),
    );
}

/// A Japanese word explained in Chinese whose colored rendering brackets
/// the part of speech, which the plain one does not.
pub open spec fn kind_shown(v: ja::ToChineseView) -> bool {
    v.part_of_speech is Some && v.meanings.len() > 0
}

proof fn lemma_index3(c: Seq<Seq<char>>, p: Seq<Seq<char>>)
    requires
        c.len() == 3,
        p.len() == 3,
        shows(c[0], p[0]),
        shows(c[1], p[1]),
        shows(c[2], p[2]),
    ensures
        lines_show(c, p),
{
    assert forall|i: int| 0 <= i < c.len() implies shows(#[trigger] c[i], p[i]) by {
        if i == 0 {
        } else if i == 1 {
        } else {
        }
    }
}

proof fn lemma_from_japanese_show(v: ja::ToChineseView)
    requires
        from_japanese_no_escape(v),
        !kind_shown(v),
    ensures
        lines_show(from_japanese_lines(true, v), from_japanese_lines(false, v)),
{
    lemma_layout_texts();
    lemma_shows_text(Seq::empty());
    let cr = reading_section(true, v.pronunciation);
    let pr = reading_section(false, v.pronunciation);
    if let Some((kana, romaji)) = v.pronunciation {
        lemma_shows_painted(Tone::Muted, "# Pronunciation"@);
        lemma_framed("["@, Tone::Primary, kana, " | "@);
        lemma_framed(Seq::empty(), Tone::Primary, romaji, "]"@);
        lemma_shows_cat(
            "["@ + painted(true, Tone::Primary, kana) + " | "@,
            "["@ + painted(false, Tone::Primary, kana) + " | "@,
            Seq::<char>::empty() + painted(true, Tone::Primary, romaji) + "]"@,
            Seq::<char>::empty() + painted(false, Tone::Primary, romaji) + "]"@,
        );
        assert("["@ + painted(true, Tone::Primary, kana) + " | "@ + (Seq::<char>::empty()
            + painted(true, Tone::Primary, romaji) + "]"@) =~= cr[1]);
        assert("["@ + painted(false, Tone::Primary, kana) + " | "@ + (Seq::<char>::empty()
            + painted(false, Tone::Primary, romaji) + "]"@) =~= pr[1]);
        lemma_index3(cr, pr);
    }
    assert(lines_show(cr, pr));
    let ck = kind_senses_section(true, v.part_of_speech, v.meanings);
    let pk = kind_senses_section(false, v.part_of_speech, v.meanings);
    if v.meanings.len() > 0 {
        assert(v.part_of_speech is None);
        lemma_heading_show("# Meanings"@);
        lemma_bullets_show(v.meanings);
        lemma_shows_blank();
        lemma_three(
            seq![heading(true, "# Meanings"@)],
            seq![heading(false, "# Meanings"@)],
            bullets(true, v.meanings),
            bullets(false, v.meanings),
            seq![Seq::<char>::empty()],
            seq![Seq::<char>::empty()],
        );
        assert(ck =~= seq![heading(true, "# Meanings"@)] + bullets(true, v.meanings) + seq![
            Seq::<char>::empty(),
        ]);
        assert(pk =~= seq![heading(false, "# Meanings"@)] + bullets(false, v.meanings) + seq![
            Seq::<char>::empty(),
        ]);
    }
    assert(lines_show(ck, pk));
    let ce = exam_section(true, v.exam);
    let pe = exam_section(false, v.exam);
    if let Some(e) = v.exam {
        lemma_shows_painted(Tone::Muted, "# Exam"@);
        lemma_shows_painted(Tone::Primary, e);
        lemma_index3(ce, pe);
    }
    assert(lines_show(ce, pe));
    lemma_header_show(v.input_text);
    lemma_examples_show(v.examples);
    let h = header(true, v.input_text);
    let hp = header(false, v.input_text);
    lemma_three(h, hp, cr, pr, ck, pk);
    lemma_three(h + cr + ck, hp + pr + pk, ce, pe, examples_section(true, v.examples), examples_section(false, v.examples));
}

proof fn lemma_to_japanese_show(v: ja::ToJapaneseView)
    requires
        to_japanese_no_escape(v),
    ensures
        lines_show(to_japanese_lines(true, v), to_japanese_lines(false, v)),
{
    lemma_layout_texts();
    let cbody: Seq<Seq<char>> = if v.meanings.len() > 0 {
        seq![heading(true, "# Meanings"@)] + v.meanings.map_values(
            |m: (Seq<char>, Seq<char>)| translation_line(true, m),
        ) + seq![Seq::<char>::empty()]
    } else {
        Seq::empty()
    };
    let pbody: Seq<Seq<char>> = if v.meanings.len() > 0 {
        seq![heading(false, "# Meanings"@)] + v.meanings.map_values(
            |m: (Seq<char>, Seq<char>)| translation_line(false, m),
        ) + seq![Seq::<char>::empty()]
    } else {
        Seq::empty()
    };
    if v.meanings.len() > 0 {
        let cl = v.meanings.map_values(|m: (Seq<char>, Seq<char>)| translation_line(true, m));
        let pl = v.meanings.map_values(|m: (Seq<char>, Seq<char>)| translation_line(false, m));
        assert forall|i: int| 0 <= i < cl.len() implies shows(#[trigger] cl[i], pl[i]) by {
            let m = v.meanings[i];
            assert(no_escape(m.0) && no_escape(m.1));
            if m.0.len() > 0 {
                lemma_framed("["@, Tone::Primary, m.0, "] "@);
                lemma_shows_painted(Tone::Primary, m.1);
                lemma_shows_cat(
                    "["@ + painted(true, Tone::Primary, m.0) + "] "@,
                    "["@ + painted(false, Tone::Primary, m.0) + "] "@,
                    painted(true, Tone::Primary, m.1),
                    painted(false, Tone::Primary, m.1),
                );
            } else {
                lemma_shows_painted(Tone::Primary, m.1);
            }
            assert(cl[i] == translation_line(true, m));
            assert(pl[i] == translation_line(false, m));
        }
        lemma_heading_show("# Meanings"@);
        lemma_shows_blank();
        lemma_three(
            seq![heading(true, "# Meanings"@)],
            seq![heading(false, "# Meanings"@)],
            cl,
            pl,
            seq![Seq::<char>::empty()],
            seq![Seq::<char>::empty()],
        );
    }
    lemma_header_show(v.input_text);
    lemma_examples_show(v.examples);
    lemma_three(
        header(true, v.input_text),
        header(false, v.input_text),
        cbody,
        pbody,
        examples_section(true, v.examples),
        examples_section(false, v.examples),
    );
    assert(to_japanese_lines(true, v) == header(true, v.input_text) + cbody + examples_section(
        true,
        v.examples,
    ));
    assert(to_japanese_lines(false, v) == header(false, v.input_text) + pbody + examples_section(
        false,
        v.examples,
    ));
}

proof fn lemma_korean_show(with_example: bool, ms: Seq<ko::MeaningView>)
    requires
        korean_meanings_no_escape(ms),
    ensures
        lines_show(senses_section(true, with_example, ms), senses_section(false, with_example, ms)),
{
    lemma_layout_texts();
    if ms.len() > 0 {
        let cbs = ms.map_values(|m: ko::MeaningView| sense_block(true, with_example, m));
        let pbs = ms.map_values(|m: ko::MeaningView| sense_block(false, with_example, m));
        assert forall|i: int| 0 <= i < cbs.len() implies lines_show(#[trigger] cbs[i], pbs[i]) by {
            let m = ms[i];
            assert(opt_no_escape(m.0) && lines_no_escape(m.1) && opt_pair_no_escape(m.2));
            lemma_bracket_show(m.0);
            lemma_bullets_show(m.1);
            lemma_shows_blank();
            let o = optional_line(m.0, |p: Seq<char>| "["@ + p + "]"@);
            let cex: Seq<Seq<char>> = match m.2 {
                Some(e) if with_example => seq![
                    "  "@ + painted(true, Tone::Secondary, e.0),
                    "  "@ + painted(true, Tone::Secondary, e.1),
                ],
                _ => Seq::empty(),
            };
            let pex: Seq<Seq<char>> = match m.2 {
                Some(e) if with_example => seq![
                    "  "@ + painted(false, Tone::Secondary, e.0),
                    "  "@ + painted(false, Tone::Secondary, e.1),
                ],
                _ => Seq::empty(),
            };
            if let Some(e) = m.2 {
                lemma_prefixed("  "@, Tone::Secondary, e.0);
                lemma_prefixed("  "@, Tone::Secondary, e.1);
                if with_example {
                    assert forall|k: int| 0 <= k < cex.len() implies shows(#[trigger] cex[k], pex[k]) by {
                        if k == 0 {
                        } else {
                        }
                    }
                }
            }
            assert(lines_show(cex, pex));
            lemma_three(o, o, bullets(true, m.1), bullets(false, m.1), cex, pex);
            lemma_lines_cat(
                o + bullets(true, m.1) + cex,
                o + bullets(false, m.1) + pex,
                seq![Seq::<char>::empty()],
                seq![Seq::<char>::empty()],
            );
            assert(cbs[i] == sense_block(true, with_example, m));
            assert(pbs[i] == sense_block(false, with_example, m));
        }
        lemma_lines_joined(cbs, pbs);
        lemma_heading_show("# Meanings"@);
        lemma_lines_cat(
            seq![heading(true, "# Meanings"@)],
            seq![heading(false, "# Meanings"@)],
            joined(cbs),
            joined(pbs),
        );
    }
}

proof fn lemma_not_found_show(suggestions: Seq<Seq<char>>)
    requires
        lines_no_escape(suggestions),
    ensures
        lines_show(not_found_lines(true, suggestions), not_found_lines(false, suggestions)),
{
    lemma_layout_texts();
    lemma_heading_show("Did you mean:"@);
    lemma_bullets_show(suggestions);
    lemma_lines_cat(
        seq![heading(true, "Did you mean:"@)],
        seq![heading(false, "Did you mean:"@)],
        bullets(true, suggestions),
        bullets(false, suggestions),
    );
}

/// The colored layout is the plain one with color codes added: when no text
/// of a translation holds an escape character, its colored and plain layouts
/// have as many lines, and each colored line without its escape sequences
/// is the plain line. A Japanese part of speech shown in a colored meanings
/// section is the exception: it is bracketed there and bare in the plain
/// layout.
pub proof fn law_colored_is_plain_with_styling(v: TranslationDataView)
    requires
        translation_no_escape(v),
        !(v matches TranslationDataView::FromJapanese(x) && kind_shown(x)),
    ensures
        translation_lines(true, v).len() == translation_lines(false, v).len(),
        forall|i: int|
            0 <= i < translation_lines(true, v).len() ==> unstyled(
                #[trigger] translation_lines(true, v)[i],
            ) == translation_lines(false, v)[i],
{
    match v {
        TranslationDataView::FromEnglish(x) => lemma_from_english_show(x),
        TranslationDataView::ToEnglish(x) => lemma_to_english_show(x),
        TranslationDataView::FromFrench(x) => lemma_from_french_show(x),
        TranslationDataView::ToFrench(x) => lemma_to_french_show(x),
        TranslationDataView::FromKorean(x) => lemma_korean_show(true, x.meanings),
        TranslationDataView::ToKorean(x) => {
            lemma_korean_show(false, x.meanings);
            lemma_examples_show(x.examples);
            lemma_lines_cat(
                senses_section(true, false, x.meanings),
                senses_section(false, false, x.meanings),
                examples_section(true, x.examples),
                examples_section(false, x.examples),
            );
        },
        TranslationDataView::FromJapanese(x) => lemma_from_japanese_show(x),
        TranslationDataView::ToJapanese(x) => lemma_to_japanese_show(x),
        TranslationDataView::NotFound(x) => lemma_not_found_show(x),
    }
    let c = translation_lines(true, v);
    let p = translation_lines(false, v);
    assert forall|i: int| 0 <= i < c.len() implies unstyled(#[trigger] c[i]) == p[i] by {
        assert(shows(c[i], p[i]));
    }
}

} // verus!
