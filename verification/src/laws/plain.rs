//! The plain rendering holds no escape character of its own: the only
//! `ESC` characters in it are those of the translation's texts.

use crate::parse::{en, fr, ja, ko};
use crate::parse::joined;
use crate::rdict::{translation_lines, TranslationDataView};
use crate::render::{
    bullet_section, bullets, example_lines, examples_section, header, heading, lines_text,
    not_found_lines, optional_line, painted, rendered, Tone,
};
use crate::render::en::{
    from_english_lines, meaning_block, meanings_section, pronunciation_section, to_english_lines,
};
use crate::render::fr::{from_french_lines, phonetic_section, to_french_lines};
use crate::render::ja::{
    exam_section, from_japanese_lines, reading_section, senses_section as kind_senses_section,
    to_japanese_lines, translation_line,
};
use crate::render::ko::{from_korean_lines, sense_block, senses_section, to_korean_lines};
use crate::text::CharSet;
use super::{lemma_joined_all, lemma_stripped_end};
use vstd::prelude::*;

verus! {

/// `s` holds no escape character.
pub open spec fn no_escape(s: Seq<char>) -> bool {
    forall|k: int| 0 <= k < s.len() ==> #[trigger] s[k] != '\u{1b}'
}

/// No text of `ls` holds an escape character.
pub open spec fn lines_no_escape(ls: Seq<Seq<char>>) -> bool {
    forall|i: int| 0 <= i < ls.len() ==> no_escape(#[trigger] ls[i])
}

/// The text `o`, if any, holds no escape character.
pub open spec fn opt_no_escape(o: Option<Seq<char>>) -> bool {
    match o {
        Some(t) => no_escape(t),
        None => true,
    }
}

/// No text of the pairs `ps` holds an escape character.
pub open spec fn pairs_no_escape(ps: Seq<(Seq<char>, Seq<char>)>) -> bool {
    forall|i: int| 0 <= i < ps.len() ==> no_escape((#[trigger] ps[i]).0) && no_escape(ps[i].1)
}

/// Two texts without escape character, joined, hold none.
pub proof fn lemma_cat(a: Seq<char>, b: Seq<char>)
    requires
        no_escape(a),
        no_escape(b),
    ensures
        no_escape(a + b),
{
    assert forall|k: int| 0 <= k < (a + b).len() implies #[trigger] (a + b)[k] != '\u{1b}' by {
        if k < a.len() {
            assert((a + b)[k] == a[k]);
        } else {
            assert((a + b)[k] == b[k - a.len()]);
        }
    }
}

proof fn lemma_lines_cat(a: Seq<Seq<char>>, b: Seq<Seq<char>>)
    requires
        lines_no_escape(a),
        lines_no_escape(b),
    ensures
        lines_no_escape(a + b),
{
    assert forall|i: int| 0 <= i < (a + b).len() implies no_escape(#[trigger] (a + b)[i]) by {
        if i < a.len() {
            assert((a + b)[i] == a[i]);
        } else {
            assert((a + b)[i] == b[i - a.len()]);
        }
    }
}

proof fn lemma_joined_lines(s: Seq<Seq<Seq<char>>>)
    requires
        forall|i: int| 0 <= i < s.len() ==> lines_no_escape(#[trigger] s[i]),
    ensures
        lines_no_escape(joined(s)),
{
    let p = |l: Seq<char>| no_escape(l);
    assert forall|i: int, j: int| 0 <= i < s.len() && 0 <= j < s[i].len() implies p(
        #[trigger] s[i][j],
    ) by {
        assert(lines_no_escape(s[i]));
    }
    lemma_joined_all(s, p);
    assert forall|k: int| 0 <= k < joined(s).len() implies no_escape(#[trigger] joined(s)[k]) by {
        assert(p(joined(s)[k]));
    }
}

proof fn lemma_lines_text(ls: Seq<Seq<char>>)
    requires
        lines_no_escape(ls),
    ensures
        no_escape(lines_text(ls)),
    decreases ls.len(),
{
    if ls.len() > 0 {
        let init = ls.drop_last();
        assert forall|i: int| 0 <= i < init.len() implies no_escape(#[trigger] init[i]) by {
            assert(init[i] == ls[i]);
        }
        lemma_lines_text(init);
        assert(no_escape(ls.last()));
        lemma_cat(lines_text(init), ls.last());
        lemma_cat(lines_text(init) + ls.last(), seq!['\n']);
    }
}

proof fn lemma_rendered(ls: Seq<Seq<char>>)
    requires
        lines_no_escape(ls),
    ensures
        no_escape(rendered(ls)),
{
    lemma_lines_text(ls);
    let t = lines_text(ls);
    lemma_stripped_end(t, CharSet::Whitespace);
    let r = rendered(ls);
    assert forall|k: int| 0 <= k < r.len() implies #[trigger] r[k] != '\u{1b}' by {
        assert(r[k] == t[k]);
    }
}

/// The fixed texts of the layout hold no escape character.
pub proof fn lemma_layout_texts()
    ensures
        no_escape("# Pronunciation"@),
        no_escape("# Meanings"@),
        no_escape("# Examples"@),
        no_escape("# Exam"@),
        no_escape("Did you mean:"@),
        no_escape("英：["@),
        no_escape("美：["@),
        no_escape("["@),
        no_escape("]"@),
        no_escape("] "@),
        no_escape(" | "@),
        no_escape("* "@),
        no_escape("  "@),
{
    reveal_strlit("# Pronunciation");
    reveal_strlit("# Meanings");
    reveal_strlit("# Examples");
    reveal_strlit("# Exam");
    reveal_strlit("Did you mean:");
    reveal_strlit("英：[");
    reveal_strlit("美：[");
    reveal_strlit("[");
    reveal_strlit("]");
    reveal_strlit("] ");
    reveal_strlit(" | ");
    reveal_strlit("* ");
    reveal_strlit("  ");
}

proof fn lemma_bullets(items: Seq<Seq<char>>)
    requires
        lines_no_escape(items),
    ensures
        lines_no_escape(bullets(false, items)),
{
    lemma_layout_texts();
    assert forall|i: int| 0 <= i < bullets(false, items).len() implies no_escape(
        #[trigger] bullets(false, items)[i],
    ) by {
        assert(no_escape(items[i]));
        lemma_cat("* "@, items[i]);
    }
}

proof fn lemma_bullet_section(title: Seq<char>, items: Seq<Seq<char>>)
    requires
        no_escape(title),
        lines_no_escape(items),
    ensures
        lines_no_escape(bullet_section(false, title, items)),
{
    if items.len() > 0 {
        lemma_bullets(items);
        lemma_lines_cat(seq![heading(false, title)], bullets(false, items));
        lemma_lines_cat(seq![heading(false, title)] + bullets(false, items), seq![Seq::<char>::empty()]);
    }
}

proof fn lemma_examples_section(ps: Seq<(Seq<char>, Seq<char>)>)
    requires
        pairs_no_escape(ps),
    ensures
        lines_no_escape(examples_section(false, ps)),
{
    if ps.len() > 0 {
        lemma_layout_texts();
        let blocks = ps.map_values(|p: (Seq<char>, Seq<char>)| example_lines(false, p));
        assert forall|i: int| 0 <= i < blocks.len() implies lines_no_escape(#[trigger] blocks[i]) by {
            assert(no_escape(ps[i].0) && no_escape(ps[i].1));
            lemma_cat("* "@, ps[i].0);
            lemma_cat("  "@, ps[i].1);
            assert(blocks[i] == example_lines(false, ps[i]));
        }
        lemma_joined_lines(blocks);
        lemma_lines_cat(seq![heading(false, "# Examples"@)], joined(blocks));
        lemma_lines_cat(seq![heading(false, "# Examples"@)] + joined(blocks), seq![Seq::<char>::empty()]);
    }
}

proof fn lemma_header(word: Seq<char>)
    requires
        no_escape(word),
    ensures
        lines_no_escape(header(false, word)),
{
}

proof fn lemma_bracketed(o: Option<Seq<char>>)
    requires
        opt_no_escape(o),
    ensures
        lines_no_escape(optional_line(o, |p: Seq<char>| "["@ + p + "]"@)),
{
    lemma_layout_texts();
    if let Some(p) = o {
        lemma_cat("["@, p);
        lemma_cat("["@ + p, "]"@);
    }
}

proof fn lemma_not_found(suggestions: Seq<Seq<char>>)
    requires
        lines_no_escape(suggestions),
    ensures
        lines_no_escape(not_found_lines(false, suggestions)),
{
    lemma_layout_texts();
    lemma_bullets(suggestions);
    lemma_lines_cat(seq![heading(false, "Did you mean:"@)], bullets(false, suggestions));
}

/// No text of the meanings `ms` holds an escape character.
pub open spec fn meanings_no_escape(ms: Seq<(Option<Seq<char>>, Seq<Seq<char>>)>) -> bool {
    forall|i: int|
        0 <= i < ms.len() ==> opt_no_escape((#[trigger] ms[i]).0) && lines_no_escape(ms[i].1)
}

/// No text of an English word explained in Chinese holds an escape character.
pub open spec fn from_english_no_escape(v: en::ToChineseView) -> bool {
    &&& no_escape(v.input_text)
    &&& opt_no_escape(v.pronunciation.0)
    &&& opt_no_escape(v.pronunciation.1)
    &&& meanings_no_escape(v.meanings)
    &&& pairs_no_escape(v.examples)
    &&& lines_no_escape(v.exams)
}

/// No text of a Chinese word translated to English holds an escape character.
pub open spec fn to_english_no_escape(v: en::ToEnglishView) -> bool {
    &&& no_escape(v.input_text)
    &&& lines_no_escape(v.meanings)
    &&& pairs_no_escape(v.examples)
}

/// No text of a French word explained in Chinese holds an escape character.
pub open spec fn from_french_no_escape(v: fr::ToChineseView) -> bool {
    &&& no_escape(v.input_text)
    &&& opt_no_escape(v.pronunciation)
    &&& lines_no_escape(v.meanings)
    &&& pairs_no_escape(v.examples)
}

/// No text of a Chinese word translated to French holds an escape character.
pub open spec fn to_french_no_escape(v: fr::ToFrenchView) -> bool {
    &&& no_escape(v.input_text)
    &&& lines_no_escape(v.meanings)
    &&& pairs_no_escape(v.examples)
}

proof fn lemma_accent(label: Seq<char>, o: Option<Seq<char>>)
    requires
        no_escape(label),
        opt_no_escape(o),
    ensures
        lines_no_escape(
            optional_line(o, |t: Seq<char>| label + painted(false, Tone::Primary, t) + "]"@),
        ),
{
    lemma_layout_texts();
    if let Some(t) = o {
        lemma_cat(label, t);
        lemma_cat(label + t, "]"@);
    }
}

proof fn lemma_from_english(v: en::ToChineseView)
    requires
        from_english_no_escape(v),
    ensures
        lines_no_escape(from_english_lines(false, v)),
{
    lemma_layout_texts();
    let pron = pronunciation_section(false, v.pronunciation);
    if v.pronunciation.0 is Some || v.pronunciation.1 is Some {
        let a = optional_line(
            v.pronunciation.0,
            |t: Seq<char>| "英：["@ + painted(false, Tone::Primary, t) + "]"@,
        );
        let b = optional_line(
            v.pronunciation.1,
            |t: Seq<char>| "美：["@ + painted(false, Tone::Primary, t) + "]"@,
        );
        lemma_accent("英：["@, v.pronunciation.0);
        lemma_accent("美：["@, v.pronunciation.1);
        lemma_lines_cat(seq![heading(false, "# Pronunciation"@)], a);
        lemma_lines_cat(seq![heading(false, "# Pronunciation"@)] + a, b);
        lemma_lines_cat(seq![heading(false, "# Pronunciation"@)] + a + b, seq![Seq::<char>::empty()]);
    }
    assert(lines_no_escape(pron));
    let means = meanings_section(false, v.meanings);
    if v.meanings.len() > 0 {
        let blocks = v.meanings.map_values(
            |m: (Option<Seq<char>>, Seq<Seq<char>>)| meaning_block(false, m),
        );
        assert forall|i: int| 0 <= i < blocks.len() implies lines_no_escape(#[trigger] blocks[i]) by {
            let m = v.meanings[i];
            assert(opt_no_escape(m.0) && lines_no_escape(m.1));
            lemma_bracketed(m.0);
            lemma_bullets(m.1);
            let o = optional_line(m.0, |p: Seq<char>| "["@ + p + "]"@);
            lemma_lines_cat(o, bullets(false, m.1));
            lemma_lines_cat(o + bullets(false, m.1), seq![Seq::<char>::empty()]);
            assert(blocks[i] == meaning_block(false, m));
        }
        lemma_joined_lines(blocks);
        lemma_lines_cat(seq![heading(false, "# Meanings"@)], joined(blocks));
    }
    assert(lines_no_escape(means));
    lemma_header(v.input_text);
    lemma_examples_section(v.examples);
    lemma_lines_cat(header(false, v.input_text), pron);
    lemma_lines_cat(header(false, v.input_text) + pron, means);
    lemma_lines_cat(header(false, v.input_text) + pron + means, examples_section(false, v.examples));
}

proof fn lemma_to_english(v: en::ToEnglishView)
    requires
        to_english_no_escape(v),
    ensures
        lines_no_escape(to_english_lines(false, v)),
{
    lemma_layout_texts();
    lemma_header(v.input_text);
    lemma_bullet_section("# Meanings"@, v.meanings);
    lemma_examples_section(v.examples);
    let a = header(false, v.input_text);
    let b = bullet_section(false, "# Meanings"@, v.meanings);
    lemma_lines_cat(a, b);
    lemma_lines_cat(a + b, examples_section(false, v.examples));
}

proof fn lemma_from_french(v: fr::ToChineseView)
    requires
        from_french_no_escape(v),
    ensures
        lines_no_escape(from_french_lines(false, v)),
{
    lemma_layout_texts();
    let p = phonetic_section(false, v.pronunciation);
    if let Some(t) = v.pronunciation {
        lemma_cat("["@, t);
        lemma_cat("["@ + t, "]"@);
    }
    assert(lines_no_escape(p));
    lemma_bullet_section("# Meanings"@, v.meanings);
    lemma_examples_section(v.examples);
    let b = bullet_section(false, "# Meanings"@, v.meanings);
    lemma_lines_cat(p, b);
    lemma_lines_cat(p + b, examples_section(false, v.examples));
}

proof fn lemma_to_french(v: fr::ToFrenchView)
    requires
        to_french_no_escape(v),
    ensures
        lines_no_escape(to_french_lines(false, v)),
{
    lemma_layout_texts();
    lemma_bullet_section("# Meanings"@, v.meanings);
    lemma_examples_section(v.examples);
    lemma_lines_cat(
        bullet_section(false, "# Meanings"@, v.meanings),
        examples_section(false, v.examples),
    );
}

/// The pair `p`, if any, holds no escape character.
pub open spec fn opt_pair_no_escape(p: Option<(Seq<char>, Seq<char>)>) -> bool {
    match p {
        Some((a, b)) => no_escape(a) && no_escape(b),
        None => true,
    }
}

/// No text of a Japanese word explained in Chinese holds an escape
/// character.
pub open spec fn from_japanese_no_escape(v: ja::ToChineseView) -> bool {
    &&& no_escape(v.input_text)
    &&& opt_pair_no_escape(v.pronunciation)
    &&& lines_no_escape(v.meanings)
    &&& opt_no_escape(v.part_of_speech)
    &&& opt_no_escape(v.exam)
    &&& pairs_no_escape(v.examples)
}

/// No text of a Chinese word translated to Japanese holds an escape
/// character.
pub open spec fn to_japanese_no_escape(v: ja::ToJapaneseView) -> bool {
    &&& no_escape(v.input_text)
    &&& pairs_no_escape(v.meanings)
    &&& pairs_no_escape(v.examples)
}

/// No text of the Korean meanings `ms` holds an escape character.
pub open spec fn korean_meanings_no_escape(ms: Seq<ko::MeaningView>) -> bool {
    forall|i: int|
        0 <= i < ms.len() ==> opt_no_escape((#[trigger] ms[i]).0) && lines_no_escape(ms[i].1)
            && opt_pair_no_escape(ms[i].2)
}

/// No text of a Korean word explained in Chinese holds an escape character.
pub open spec fn from_korean_no_escape(v: ko::ToChineseView) -> bool {
    &&& no_escape(v.input_text)
    &&& korean_meanings_no_escape(v.meanings)
}

/// No text of a Chinese word translated to Korean holds an escape character.
pub open spec fn to_korean_no_escape(v: ko::ToKoreanView) -> bool {
    &&& no_escape(v.input_text)
    &&& korean_meanings_no_escape(v.meanings)
    &&& pairs_no_escape(v.examples)
}

proof fn lemma_from_japanese(v: ja::ToChineseView)
    requires
        from_japanese_no_escape(v),
    ensures
        lines_no_escape(from_japanese_lines(false, v)),
{
    lemma_layout_texts();
    let r = reading_section(false, v.pronunciation);
    if let Some((kana, romaji)) = v.pronunciation {
        lemma_cat("["@, kana);
        lemma_cat("["@ + kana, " | "@);
        lemma_cat("["@ + kana + " | "@, romaji);
        lemma_cat("["@ + kana + " | "@ + romaji, "]"@);
    }
    assert(lines_no_escape(r));
    let k = kind_senses_section(false, v.part_of_speech, v.meanings);
    if v.meanings.len() > 0 {
        let kind: Seq<Seq<char>> = match v.part_of_speech {
            Some(p) => seq![p],
            None => Seq::empty(),
        };
        lemma_bullets(v.meanings);
        lemma_lines_cat(seq![heading(false, "# Meanings"@)], kind);
        lemma_lines_cat(seq![heading(false, "# Meanings"@)] + kind, bullets(false, v.meanings));
        lemma_lines_cat(
            seq![heading(false, "# Meanings"@)] + kind + bullets(false, v.meanings),
            seq![Seq::<char>::empty()],
        );
    }
    assert(lines_no_escape(k));
    let e = exam_section(false, v.exam);
    assert(lines_no_escape(e));
    lemma_header(v.input_text);
    lemma_examples_section(v.examples);
    let h = header(false, v.input_text);
    lemma_lines_cat(h, r);
    lemma_lines_cat(h + r, k);
    lemma_lines_cat(h + r + k, e);
    lemma_lines_cat(h + r + k + e, examples_section(false, v.examples));
}

proof fn lemma_to_japanese(v: ja::ToJapaneseView)
    requires
        to_japanese_no_escape(v),
    ensures
        lines_no_escape(to_japanese_lines(false, v)),
{
    lemma_layout_texts();
    let body: Seq<Seq<char>> = if v.meanings.len() > 0 {
        seq![heading(false, "# Meanings"@)] + v.meanings.map_values(
            |m: (Seq<char>, Seq<char>)| translation_line(false, m),
        ) + seq![Seq::<char>::empty()]
    } else {
        Seq::empty()
    };
    if v.meanings.len() > 0 {
        let ls = v.meanings.map_values(|m: (Seq<char>, Seq<char>)| translation_line(false, m));
        assert forall|i: int| 0 <= i < ls.len() implies no_escape(#[trigger] ls[i]) by {
            let m = v.meanings[i];
            assert(no_escape(m.0) && no_escape(m.1));
            lemma_cat("["@, m.0);
            lemma_cat("["@ + m.0, "] "@);
            lemma_cat("["@ + m.0 + "] "@, m.1);
            assert(ls[i] == translation_line(false, m));
        }
        lemma_lines_cat(seq![heading(false, "# Meanings"@)], ls);
        lemma_lines_cat(seq![heading(false, "# Meanings"@)] + ls, seq![Seq::<char>::empty()]);
    }
    lemma_header(v.input_text);
    lemma_examples_section(v.examples);
    let h = header(false, v.input_text);
    lemma_lines_cat(h, body);
    lemma_lines_cat(h + body, examples_section(false, v.examples));
    assert(to_japanese_lines(false, v) == h + body + examples_section(false, v.examples));
}

proof fn lemma_korean_senses(with_example: bool, ms: Seq<ko::MeaningView>)
    requires
        korean_meanings_no_escape(ms),
    ensures
        lines_no_escape(senses_section(false, with_example, ms)),
{
    lemma_layout_texts();
    if ms.len() > 0 {
        let blocks = ms.map_values(|m: ko::MeaningView| sense_block(false, with_example, m));
        assert forall|i: int| 0 <= i < blocks.len() implies lines_no_escape(#[trigger] blocks[i]) by {
            let m = ms[i];
            assert(opt_no_escape(m.0) && lines_no_escape(m.1) && opt_pair_no_escape(m.2));
            lemma_bracketed(m.0);
            lemma_bullets(m.1);
            let o = optional_line(m.0, |p: Seq<char>| "["@ + p + "]"@);
            let ex: Seq<Seq<char>> = match m.2 {
                Some(e) if with_example => seq![
                    "  "@ + painted(false, Tone::Secondary, e.0),
                    "  "@ + painted(false, Tone::Secondary, e.1),
                ],
                _ => Seq::empty(),
            };
            if let Some(e) = m.2 {
                lemma_cat("  "@, e.0);
                lemma_cat("  "@, e.1);
            }
            assert(lines_no_escape(ex));
            lemma_lines_cat(o, bullets(false, m.1));
            lemma_lines_cat(o + bullets(false, m.1), ex);
            lemma_lines_cat(o + bullets(false, m.1) + ex, seq![Seq::<char>::empty()]);
            assert(blocks[i] == sense_block(false, with_example, m));
        }
        lemma_joined_lines(blocks);
        lemma_lines_cat(seq![heading(false, "# Meanings"@)], joined(blocks));
    }
}

proof fn lemma_from_korean(v: ko::ToChineseView)
    requires
        from_korean_no_escape(v),
    ensures
        lines_no_escape(from_korean_lines(false, v)),
{
    lemma_korean_senses(true, v.meanings);
}

proof fn lemma_to_korean(v: ko::ToKoreanView)
    requires
        to_korean_no_escape(v),
    ensures
        lines_no_escape(to_korean_lines(false, v)),
{
    lemma_korean_senses(false, v.meanings);
    lemma_examples_section(v.examples);
    lemma_lines_cat(senses_section(false, false, v.meanings), examples_section(false, v.examples));
}

/// No text of the translation `v` holds an escape character.
pub open spec fn translation_no_escape(v: TranslationDataView) -> bool {
    match v {
        TranslationDataView::FromEnglish(x) => from_english_no_escape(x),
        TranslationDataView::ToEnglish(x) => to_english_no_escape(x),
        TranslationDataView::FromFrench(x) => from_french_no_escape(x),
        TranslationDataView::ToFrench(x) => to_french_no_escape(x),
        TranslationDataView::FromKorean(x) => from_korean_no_escape(x),
        TranslationDataView::ToKorean(x) => to_korean_no_escape(x),
        TranslationDataView::FromJapanese(x) => from_japanese_no_escape(x),
        TranslationDataView::ToJapanese(x) => to_japanese_no_escape(x),
        TranslationDataView::NotFound(x) => lines_no_escape(x),
    }
}

/// The plain rendering adds no escape character: when no text of a
/// translation holds one, its plain rendering holds none, so it carries no
/// color code.
pub proof fn law_plain_rendering_has_no_escape(v: TranslationDataView)
    requires
        translation_no_escape(v),
    ensures
        no_escape(rendered(translation_lines(false, v))),
{
    match v {
        TranslationDataView::FromEnglish(x) => lemma_from_english(x),
        TranslationDataView::ToEnglish(x) => lemma_to_english(x),
        TranslationDataView::FromFrench(x) => lemma_from_french(x),
        TranslationDataView::ToFrench(x) => lemma_to_french(x),
        TranslationDataView::FromKorean(x) => lemma_from_korean(x),
        TranslationDataView::ToKorean(x) => lemma_to_korean(x),
        TranslationDataView::FromJapanese(x) => lemma_from_japanese(x),
        TranslationDataView::ToJapanese(x) => lemma_to_japanese(x),
        TranslationDataView::NotFound(x) => lemma_not_found(x),
    }
    lemma_rendered(translation_lines(false, v));
}

} // verus!
