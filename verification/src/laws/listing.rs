//! Every rendering that has examples ends with them: the heading, then each
//! example as a bullet with its translation indented below, then a blank
//! line.

use crate::parse::joined;
use crate::rdict::{translation_lines, TranslationDataView};
use crate::render::{
    bullet_section, bullets, examples_section, example_lines, header, heading, not_found_lines,
    optional_line, painted, Tone,
};
use crate::render::en::{meaning_block, meanings_section, pronunciation_section};
use crate::render::fr::phonetic_section;
use crate::render::ja::{exam_section, reading_section, senses_section as ja_senses, translation_line};
use crate::render::ko::{sense_block, senses_section as ko_senses};
use vstd::prelude::*;

verus! {

/// The examples that a translation carries, for the kinds that have them.
pub open spec fn examples_field(v: TranslationDataView) -> Option<Seq<(Seq<char>, Seq<char>)>> {
    match v {
        TranslationDataView::FromEnglish(x) => Some(x.examples),
        TranslationDataView::ToEnglish(x) => Some(x.examples),
        TranslationDataView::FromFrench(x) => Some(x.examples),
        TranslationDataView::ToFrench(x) => Some(x.examples),
        TranslationDataView::ToKorean(x) => Some(x.examples),
        TranslationDataView::FromJapanese(x) => Some(x.examples),
        TranslationDataView::ToJapanese(x) => Some(x.examples),
        TranslationDataView::FromKorean(_) => None,
        TranslationDataView::NotFound(_) => None,
    }
}

proof fn lemma_joined_pairs<T>(blocks: Seq<Seq<T>>)
    requires
        forall|j: int| 0 <= j < blocks.len() ==> (#[trigger] blocks[j]).len() == 2,
    ensures
        joined(blocks).len() == 2 * blocks.len(),
        forall|j: int|
            0 <= j < blocks.len() ==> joined(blocks)[2 * j] == (#[trigger] blocks[j])[0]
                && joined(blocks)[2 * j + 1] == blocks[j][1],
    decreases blocks.len(),
{
    if blocks.len() > 0 {
        let init = blocks.drop_last();
        assert forall|j: int| 0 <= j < init.len() implies (#[trigger] init[j]).len() == 2 by {
            assert(init[j] == blocks[j]);
        }
        lemma_joined_pairs(init);
        let a = joined(init);
        let b = blocks.last();
        assert(joined(blocks) == a + b);
        assert(b == blocks[blocks.len() - 1]);
        assert forall|j: int| 0 <= j < blocks.len() implies joined(blocks)[2 * j] == (
        #[trigger] blocks[j])[0] && joined(blocks)[2 * j + 1] == blocks[j][1] by {
            if j < init.len() {
                assert(init[j] == blocks[j]);
            }
        }
    }
}

proof fn lemma_examples_shape(colored: bool, ex: Seq<(Seq<char>, Seq<char>)>)
    requires
        ex.len() > 0,
    ensures
        examples_section(colored, ex).len() == 2 * ex.len() + 2,
        examples_section(colored, ex)[0] == painted(colored, Tone::Muted, "# Examples"@),
        forall|j: int|
            0 <= j < ex.len() ==> examples_section(colored, ex)[1 + 2 * j] == "* "@ + painted(
                colored,
                Tone::Primary,
                (#[trigger] ex[j]).0,
            ) && examples_section(colored, ex)[2 + 2 * j] == "  "@ + painted(
                colored,
                Tone::Secondary,
                ex[j].1,
            ),
        examples_section(colored, ex)[2 * ex.len() + 1int] == Seq::<char>::empty(),
{
    let blocks = ex.map_values(|p: (Seq<char>, Seq<char>)| example_lines(colored, p));
    assert forall|j: int| 0 <= j < blocks.len() implies (#[trigger] blocks[j]).len() == 2 by {
        assert(blocks[j] == example_lines(colored, ex[j]));
    }
    lemma_joined_pairs(blocks);
    let head = seq![painted(colored, Tone::Muted, "# Examples"@)];
    let e = examples_section(colored, ex);
    assert(e == head + joined(blocks) + seq![Seq::<char>::empty()]);
    assert forall|j: int| 0 <= j < ex.len() implies e[1 + 2 * j] == "* "@ + painted(
        colored,
        Tone::Primary,
        (#[trigger] ex[j]).0,
    ) && e[2 + 2 * j] == "  "@ + painted(colored, Tone::Secondary, ex[j].1) by {
        assert(blocks[j] == example_lines(colored, ex[j]));
        assert(e[1 + 2 * j] == joined(blocks)[2 * j]);
        assert(e[2 + 2 * j] == joined(blocks)[2 * j + 1]);
    }
}

/// Every rendering of a translation that has examples, plain or colored,
/// ends with all of them: the line `# Examples`, then for each example
/// `(a, b)` in order the line `* a` and the line `  b` (each text in its
/// color when colored), then a blank line.
pub proof fn law_examples_listed(colored: bool, v: TranslationDataView)
    requires
        examples_field(v) is Some,
        examples_field(v)->0.len() > 0,
    ensures
        ({
            let ls = translation_lines(colored, v);
            let ex = examples_field(v)->0;
            let k = ls.len() - (2 * ex.len() + 2);
            &&& ls.len() >= 2 * ex.len() + 2
            &&& ls[k] == painted(colored, Tone::Muted, "# Examples"@)
            &&& forall|j: int|
                0 <= j < ex.len() ==> ls[k + 1 + 2 * j] == "* "@ + painted(
                    colored,
                    Tone::Primary,
                    (#[trigger] ex[j]).0,
                ) && ls[k + 2 + 2 * j] == "  "@ + painted(colored, Tone::Secondary, ex[j].1)
            &&& ls[ls.len() - 1] == Seq::<char>::empty()
        }),
{
    let ex = examples_field(v)->0;
    let ls = translation_lines(colored, v);
    let e = examples_section(colored, ex);
    lemma_examples_shape(colored, ex);
    let p = ls.subrange(0, ls.len() - e.len());
    assert(ls =~= p + e) by {
        match v {
            TranslationDataView::FromEnglish(x) => {},
            TranslationDataView::ToEnglish(x) => {},
            TranslationDataView::FromFrench(x) => {},
            TranslationDataView::ToFrench(x) => {},
            TranslationDataView::ToKorean(x) => {},
            TranslationDataView::FromJapanese(x) => {},
            TranslationDataView::ToJapanese(x) => {},
            _ => {},
        }
    }
    let k = ls.len() - (2 * ex.len() + 2);
    assert forall|j: int| 0 <= j < ex.len() implies ls[k + 1 + 2 * j] == "* "@ + painted(
        colored,
        Tone::Primary,
        (#[trigger] ex[j]).0,
    ) && ls[k + 2 + 2 * j] == "  "@ + painted(colored, Tone::Secondary, ex[j].1) by {
        assert(ls[k + 1 + 2 * j] == e[1 + 2 * j]);
        assert(ls[k + 2 + 2 * j] == e[2 + 2 * j]);
    }
    assert(ls[k] == e[0]);
    assert(ls[ls.len() - 1] == e[2 * ex.len() + 1int]);
}

/// The bullet line of `t`: `* ` then `t`, in the primary color when
/// colored.
pub open spec fn bullet_of(colored: bool, t: Seq<char>) -> Seq<char> {
    "* "@ + painted(colored, Tone::Primary, t)
}

proof fn lemma_contains_left(a: Seq<Seq<char>>, b: Seq<Seq<char>>, x: Seq<char>)
    requires
        a.contains(x),
    ensures
        (a + b).contains(x),
{
    let i = choose|i: int| 0 <= i < a.len() && a[i] == x;
    assert((a + b)[i] == x);
}

proof fn lemma_contains_right(a: Seq<Seq<char>>, b: Seq<Seq<char>>, x: Seq<char>)
    requires
        b.contains(x),
    ensures
        (a + b).contains(x),
{
    let i = choose|i: int| 0 <= i < b.len() && b[i] == x;
    assert((a + b)[a.len() + i] == x);
}

proof fn lemma_joined_contains(s: Seq<Seq<Seq<char>>>, i: int, x: Seq<char>)
    requires
        0 <= i < s.len(),
        s[i].contains(x),
    ensures
        joined(s).contains(x),
    decreases s.len(),
{
    let init = s.drop_last();
    assert(joined(s) == joined(init) + s.last());
    if i == s.len() - 1 {
        lemma_contains_right(joined(init), s.last(), x);
    } else {
        assert(init[i] == s[i]);
        lemma_joined_contains(init, i, x);
        lemma_contains_left(joined(init), s.last(), x);
    }
}

proof fn lemma_bullets_contain(colored: bool, items: Seq<Seq<char>>, j: int)
    requires
        0 <= j < items.len(),
    ensures
        bullets(colored, items).contains(bullet_of(colored, items[j])),
{
    assert(bullets(colored, items)[j] == bullet_of(colored, items[j]));
}

proof fn lemma_bullet_section_contains(colored: bool, title: Seq<char>, items: Seq<Seq<char>>, j: int)
    requires
        0 <= j < items.len(),
    ensures
        bullet_section(colored, title, items).contains(bullet_of(colored, items[j])),
{
    lemma_bullets_contain(colored, items, j);
    lemma_contains_right(seq![heading(colored, title)], bullets(colored, items), bullet_of(colored, items[j]));
    lemma_contains_left(
        seq![heading(colored, title)] + bullets(colored, items),
        seq![Seq::<char>::empty()],
        bullet_of(colored, items[j]),
    );
}

/// The texts that a translation shows as its meanings: each definition of
/// each meaning, each suggestion of a page without translation.
pub open spec fn meaning_texts(v: TranslationDataView) -> Seq<Seq<char>> {
    match v {
        TranslationDataView::FromEnglish(x) => joined(
            x.meanings.map_values(|m: (Option<Seq<char>>, Seq<Seq<char>>)| m.1),
        ),
        TranslationDataView::ToEnglish(x) => x.meanings,
        TranslationDataView::FromFrench(x) => x.meanings,
        TranslationDataView::ToFrench(x) => x.meanings,
        TranslationDataView::FromKorean(x) => joined(
            x.meanings.map_values(|m: crate::parse::ko::MeaningView| m.1),
        ),
        TranslationDataView::ToKorean(x) => joined(
            x.meanings.map_values(|m: crate::parse::ko::MeaningView| m.1),
        ),
        TranslationDataView::FromJapanese(x) => x.meanings,
        TranslationDataView::ToJapanese(_) => Seq::empty(),
        TranslationDataView::NotFound(x) => x,
    }
}

/// The position of the `k`-th element of a joined sequence: its part and
/// its place in the part.
proof fn lemma_joined_index<T>(s: Seq<Seq<T>>, k: int) -> (r: (int, int))
    requires
        0 <= k < joined(s).len(),
    ensures
        0 <= r.0 < s.len(),
        0 <= r.1 < s[r.0].len(),
        joined(s)[k] == s[r.0][r.1],
    decreases s.len(),
{
    let init = s.drop_last();
    assert(joined(s) == joined(init) + s.last());
    if k < joined(init).len() {
        let r = lemma_joined_index(init, k);
        assert(init[r.0] == s[r.0]);
        r
    } else {
        assert(s.last() == s[s.len() - 1]);
        (s.len() - 1, k - joined(init).len())
    }
}

/// Every rendering, plain or colored, shows each meaning as a bullet: each
/// definition of an English, French, Korean or Japanese translation, each
/// suggestion of a page without translation, is a line `* ` then the text
/// (in its color when colored). Each translation of a Chinese to Japanese
/// page is a line of its own too: the word in brackets when there is one,
/// then its explanation.
pub proof fn law_meanings_listed(colored: bool, v: TranslationDataView)
    ensures
        forall|j: int|
            0 <= j < meaning_texts(v).len() ==> translation_lines(colored, v).contains(
                bullet_of(colored, #[trigger] meaning_texts(v)[j]),
            ),
        v matches TranslationDataView::ToJapanese(x) ==> forall|j: int|
            0 <= j < x.meanings.len() ==> translation_lines(colored, v).contains(
                if (#[trigger] x.meanings[j]).0.len() > 0 {
                    "["@ + painted(colored, Tone::Primary, x.meanings[j].0) + "] "@ + painted(
                        colored,
                        Tone::Primary,
                        x.meanings[j].1,
                    )
                } else {
                    painted(colored, Tone::Primary, x.meanings[j].1)
                },
            ),
{
    let ls = translation_lines(colored, v);
    let ts = meaning_texts(v);
    assert forall|j: int| 0 <= j < ts.len() implies ls.contains(bullet_of(colored, #[trigger] ts[j])) by {
        let b = bullet_of(colored, ts[j]);
        match v {
            TranslationDataView::FromEnglish(x) => {
                let parts = x.meanings.map_values(|m: (Option<Seq<char>>, Seq<Seq<char>>)| m.1);
                let (i, d) = lemma_joined_index(parts, j);
                let m = x.meanings[i];
                assert(parts[i] == m.1);
                let blocks = x.meanings.map_values(
                    |m: (Option<Seq<char>>, Seq<Seq<char>>)| meaning_block(colored, m),
                );
                let o = optional_line(m.0, |p: Seq<char>| "["@ + p + "]"@);
                lemma_bullets_contain(colored, m.1, d);
                lemma_contains_right(o, bullets(colored, m.1), b);
                lemma_contains_left(o + bullets(colored, m.1), seq![Seq::<char>::empty()], b);
                assert(blocks[i] == meaning_block(colored, m));
                lemma_joined_contains(blocks, i, b);
                lemma_contains_right(seq![heading(colored, "# Meanings"@)], joined(blocks), b);
                let h = header(colored, x.input_text);
                let p = pronunciation_section(colored, x.pronunciation);
                let ms = meanings_section(colored, x.meanings);
                lemma_contains_right(h + p, ms, b);
                lemma_contains_left(h + p + ms, examples_section(colored, x.examples), b);
            },
            TranslationDataView::ToEnglish(x) => {
                lemma_bullet_section_contains(colored, "# Meanings"@, x.meanings, j);
                let bs = bullet_section(colored, "# Meanings"@, x.meanings);
                lemma_contains_right(header(colored, x.input_text), bs, b);
                lemma_contains_left(header(colored, x.input_text) + bs, examples_section(colored, x.examples), b);
            },
            TranslationDataView::FromFrench(x) => {
                lemma_bullet_section_contains(colored, "# Meanings"@, x.meanings, j);
                let bs = bullet_section(colored, "# Meanings"@, x.meanings);
                let p = phonetic_section(colored, x.pronunciation);
                lemma_contains_right(p, bs, b);
                lemma_contains_left(p + bs, examples_section(colored, x.examples), b);
            },
            TranslationDataView::ToFrench(x) => {
                lemma_bullet_section_contains(colored, "# Meanings"@, x.meanings, j);
                let bs = bullet_section(colored, "# Meanings"@, x.meanings);
                lemma_contains_left(bs, examples_section(colored, x.examples), b);
            },
            TranslationDataView::FromKorean(x) => {
                lemma_korean_contains(colored, true, x.meanings, j);
            },
            TranslationDataView::ToKorean(x) => {
                lemma_korean_contains(colored, false, x.meanings, j);
                lemma_contains_left(
                    ko_senses(colored, false, x.meanings),
                    examples_section(colored, x.examples),
                    b,
                );
            },
            TranslationDataView::FromJapanese(x) => {
                let kind: Seq<Seq<char>> = match x.part_of_speech {
                    Some(k) => seq![crate::render::ja::kind_line(colored, k)],
                    None => Seq::empty(),
                };
                let hm = seq![heading(colored, "# Meanings"@)];
                lemma_bullets_contain(colored, x.meanings, j);
                lemma_contains_right(hm + kind, bullets(colored, x.meanings), b);
                lemma_contains_left(hm + kind + bullets(colored, x.meanings), seq![Seq::<char>::empty()], b);
                let k = ja_senses(colored, x.part_of_speech, x.meanings);
                assert(k == hm + kind + bullets(colored, x.meanings) + seq![Seq::<char>::empty()]);
                let h = header(colored, x.input_text);
                let r = reading_section(colored, x.pronunciation);
                lemma_contains_right(h + r, k, b);
                lemma_contains_left(h + r + k, exam_section(colored, x.exam), b);
                lemma_contains_left(h + r + k + exam_section(colored, x.exam), examples_section(colored, x.examples), b);
            },
            TranslationDataView::ToJapanese(x) => {},
            TranslationDataView::NotFound(x) => {
                lemma_bullets_contain(colored, x, j);
                lemma_contains_right(seq![heading(colored, "Did you mean:"@)], bullets(colored, x), b);
            },
        }
    }
    if let TranslationDataView::ToJapanese(x) = v {
        assert forall|j: int| 0 <= j < x.meanings.len() implies ls.contains(
            if (#[trigger] x.meanings[j]).0.len() > 0 {
                "["@ + painted(colored, Tone::Primary, x.meanings[j].0) + "] "@ + painted(
                    colored,
                    Tone::Primary,
                    x.meanings[j].1,
                )
            } else {
                painted(colored, Tone::Primary, x.meanings[j].1)
            },
        ) by {
            let tl = x.meanings.map_values(|m: (Seq<char>, Seq<char>)| translation_line(colored, m));
            let line = tl[j];
            assert(line == translation_line(colored, x.meanings[j]));
            let hm = seq![heading(colored, "# Meanings"@)];
            assert(tl.contains(line));
            lemma_contains_right(hm, tl, line);
            lemma_contains_left(hm + tl, seq![Seq::<char>::empty()], line);
            let body = hm + tl + seq![Seq::<char>::empty()];
            let h = header(colored, x.input_text);
            lemma_contains_right(h, body, line);
            lemma_contains_left(h + body, examples_section(colored, x.examples), line);
        }
    }
}

proof fn lemma_korean_contains(
    colored: bool,
    with_example: bool,
    ms: Seq<crate::parse::ko::MeaningView>,
    j: int,
)
    requires
        0 <= j < joined(ms.map_values(|m: crate::parse::ko::MeaningView| m.1)).len(),
    ensures
        ko_senses(colored, with_example, ms).contains(
            bullet_of(colored, joined(ms.map_values(|m: crate::parse::ko::MeaningView| m.1))[j]),
        ),
{
    let parts = ms.map_values(|m: crate::parse::ko::MeaningView| m.1);
    let (i, d) = lemma_joined_index(parts, j);
    let m = ms[i];
    assert(parts[i] == m.1);
    let b = bullet_of(colored, parts[i][d]);
    let blocks = ms.map_values(|m: crate::parse::ko::MeaningView| sense_block(colored, with_example, m));
    let o = optional_line(m.0, |p: Seq<char>| "["@ + p + "]"@);
    let ex: Seq<Seq<char>> = match m.2 {
        Some(e) if with_example => seq![
            "  "@ + painted(colored, Tone::Secondary, e.0),
            "  "@ + painted(colored, Tone::Secondary, e.1),
        ],
        _ => Seq::empty(),
    };
    lemma_bullets_contain(colored, m.1, d);
    lemma_contains_right(o, bullets(colored, m.1), b);
    lemma_contains_left(o + bullets(colored, m.1), ex, b);
    lemma_contains_left(o + bullets(colored, m.1) + ex, seq![Seq::<char>::empty()], b);
    assert(blocks[i] == sense_block(colored, with_example, m));
    lemma_joined_contains(blocks, i, b);
    lemma_contains_right(seq![heading(colored, "# Meanings"@)], joined(blocks), b);
}

/// Every rendering that opens with the word looked up starts with it (bold
/// when colored), then a blank line.
pub proof fn law_header_first(colored: bool, v: TranslationDataView)
    ensures
        ({
            let word: Option<Seq<char>> = match v {
                TranslationDataView::FromEnglish(x) => Some(x.input_text),
                TranslationDataView::ToEnglish(x) => Some(x.input_text),
                TranslationDataView::FromJapanese(x) => Some(x.input_text),
                TranslationDataView::ToJapanese(x) => Some(x.input_text),
                _ => None,
            };
            word matches Some(w) ==> {
                &&& translation_lines(colored, v).len() >= 2
                &&& translation_lines(colored, v)[0] == painted(colored, Tone::Bold, w)
                &&& translation_lines(colored, v)[1] == Seq::<char>::empty()
            }
        }),
{
}

} // verus!
