//! The colored text that the first generation prints for a translation: a
//! blank line, then its sections in foreground colors, each line indented by
//! two spaces and each section ended by a blank line. A transcription or part of speech that the
//! page did not give is empty, and is left out.

use super::{ExampleSentence, Phonetic, ToChinese, ToChineseTranslation, ToChineseView, ToEnglish, ToEnglishView};
use crate::parse::{joined, lemma_joined_step};
use crate::render::{
    add_line, add_lines, blank_line, fg_ansi, fg_paint, framed, lines_text, sgr, text_of_lines, Tone,
};
use vstd::prelude::*;

verus! {

/// A section heading.
pub open spec fn section_heading(title: Seq<char>) -> Seq<char> {
    "  "@ + fg_ansi(sgr(Tone::Muted), title)
}

/// A bullet line.
pub open spec fn item_line(t: Seq<char>) -> Seq<char> {
    "  * "@ + fg_ansi(sgr(Tone::Primary), t)
}

/// A bullet line for each text.
pub open spec fn item_lines(items: Seq<Seq<char>>) -> Seq<Seq<char>> {
    items.map_values(|t: Seq<char>| item_line(t))
}

/// The line of a transcription, or none when it is empty.
pub open spec fn phonetic_line(label: Seq<char>, t: Seq<char>) -> Seq<Seq<char>> {
    if t.len() > 0 {
        seq!["  "@ + label + "：["@ + fg_ansi(sgr(Tone::Primary), t) + "]"@]
    } else {
        Seq::empty()
    }
}

/// The phonetics section: empty when neither transcription is given.
pub open spec fn phonetics_section(p: (Seq<char>, Seq<char>)) -> Seq<Seq<char>> {
    if p.0.len() > 0 || p.1.len() > 0 {
        seq![section_heading("# Phonetics"@)] + phonetic_line("英"@, p.0) + phonetic_line(
            "美"@,
            p.1,
        ) + seq![Seq::<char>::empty()]
    } else {
        Seq::empty()
    }
}

/// The lines of one part of speech: its name in brackets when given, then
/// its translations as bullets.
pub open spec fn translation_block(t: (Seq<char>, Seq<Seq<char>>)) -> Seq<Seq<char>> {
    (if t.0.len() > 0 {
        seq!["  ["@ + t.0 + "]"@]
    } else {
        Seq::empty()
    }) + item_lines(t.1)
}

/// The translations section of an English word: empty when there is none.
pub open spec fn translations_section(ts: Seq<(Seq<char>, Seq<Seq<char>>)>) -> Seq<Seq<char>> {
    if ts.len() > 0 {
        seq![section_heading("# Translations"@)] + joined(
            ts.map_values(|t: (Seq<char>, Seq<Seq<char>>)| translation_block(t)),
        ) + seq![Seq::<char>::empty()]
    } else {
        Seq::empty()
    }
}

/// The translations section of a Chinese word: empty when there is none.
pub open spec fn english_translations_section(ts: Seq<Seq<char>>) -> Seq<Seq<char>> {
    if ts.len() > 0 {
        seq![section_heading("# Translations"@)] + item_lines(ts) + seq![Seq::<char>::empty()]
    } else {
        Seq::empty()
    }
}

/// The lines of an example: the sentence as a bullet, its translation
/// indented below it.
pub open spec fn sentence_block(e: (Seq<char>, Seq<char>)) -> Seq<Seq<char>> {
    seq![item_line(e.0), "    "@ + fg_ansi(sgr(Tone::Secondary), e.1)]
}

/// The examples section: empty when there is no example.
pub open spec fn sentences_section(es: Seq<(Seq<char>, Seq<char>)>) -> Seq<Seq<char>> {
    if es.len() > 0 {
        seq![section_heading("# Examples"@)] + joined(
            es.map_values(|e: (Seq<char>, Seq<char>)| sentence_block(e)),
        ) + seq![Seq::<char>::empty()]
    } else {
        Seq::empty()
    }
}

/// The lines printed for an English word explained in Chinese.
pub open spec fn chinese_lines(v: ToChineseView) -> Seq<Seq<char>> {
    phonetics_section(v.phonetic) + translations_section(v.translations) + sentences_section(
        v.example_sentenses,
    )
}

/// The lines printed for a Chinese word translated to English.
pub open spec fn english_lines(v: ToEnglishView) -> Seq<Seq<char>> {
    english_translations_section(v.translations) + sentences_section(v.example_sentenses)
}

/// The text printed for the lines `lines`.
pub open spec fn printed(lines: Seq<Seq<char>>) -> Seq<char> {
    "\n"@ + lines_text(lines)
}

/// `prefix`, then `s` in the foreground color of `tone`, then `suffix`.
fn fg_framed(prefix: &str, tone: Tone, s: &str, suffix: &str) -> (r: String)
    requires
        !(tone is Bold),
    ensures
        r@ == prefix@ + fg_ansi(sgr(tone), s@) + suffix@,
{
    let mut r = String::from_str(prefix);
    r.append(fg_paint(tone, s).as_str());
    r.append(suffix);
    r
}

fn heading_of(title: &str) -> (r: String)
    ensures
        r@ == section_heading(title@),
{
    let r = fg_framed("  ", Tone::Muted, title, "");
    proof {
        reveal_strlit("");
    }
    assert(r@ =~= section_heading(title@));
    r
}

fn item_of(t: &str) -> (r: String)
    ensures
        r@ == item_line(t@),
{
    let r = fg_framed("  * ", Tone::Primary, t, "");
    proof {
        reveal_strlit("");
    }
    assert(r@ =~= item_line(t@));
    r
}

fn items_of(items: &Vec<String>) -> (r: Vec<String>)
    ensures
        r.deep_view() == item_lines(items.deep_view()),
{
    let ghost want = item_lines(items.deep_view());
    let mut r: Vec<String> = Vec::new();
    let mut i: usize = 0;
    while i < items.len()
        invariant
            i <= items.len(),
            want == item_lines(items.deep_view()),
            r.deep_view() =~= want.take(i as int),
        decreases items.len() - i,
    {
        let line = item_of(items[i].as_str());
        let ghost before = r.deep_view();
        add_line(&mut r, line);
        proof {
            assert(items.deep_view()[i as int] == items@[i as int]@);
            assert(want.take(i + 1) =~= want.take(i as int).push(line@));
        }
        i = i + 1;
    }
    assert(want.take(items.len() as int) =~= want);
    r
}

fn phonetic_of(label: &str, t: &String) -> (r: Vec<String>)
    ensures
        r.deep_view() == phonetic_line(label@, t@),
{
    let mut r: Vec<String> = Vec::new();
    if !t.as_str().is_empty() {
        let mut prefix = String::from_str("  ");
        prefix.append(label);
        prefix.append("：[");
        add_line(&mut r, fg_framed(prefix.as_str(), Tone::Primary, t.as_str(), "]"));
    }
    assert(r.deep_view() =~= phonetic_line(label@, t@));
    r
}

fn phonetics_of(p: &Phonetic) -> (r: Vec<String>)
    ensures
        r.deep_view() == phonetics_section(p.deep_view()),
{
    let mut r: Vec<String> = Vec::new();
    if p.uk.as_str().is_empty() && p.us.as_str().is_empty() {
        assert(r.deep_view() =~= phonetics_section(p.deep_view()));
        return r;
    }
    add_line(&mut r, heading_of("# Phonetics"));
    add_lines(&mut r, phonetic_of("英", &p.uk));
    add_lines(&mut r, phonetic_of("美", &p.us));
    add_line(&mut r, blank_line());
    assert(r.deep_view() =~= phonetics_section(p.deep_view()));
    r
}

fn translation_of(t: &ToChineseTranslation) -> (r: Vec<String>)
    ensures
        r.deep_view() == translation_block(t.deep_view()),
{
    let mut r: Vec<String> = Vec::new();
    if !t.english_word_type.as_str().is_empty() {
        add_line(&mut r, framed("  [", false, Tone::Primary, t.english_word_type.as_str(), "]"));
    }
    add_lines(&mut r, items_of(&t.chinese_translation));
    assert(r.deep_view() =~= translation_block(t.deep_view()));
    r
}

fn translations_of(ts: &Vec<ToChineseTranslation>) -> (r: Vec<String>)
    ensures
        r.deep_view() == translations_section(ts.deep_view()),
{
    let mut r: Vec<String> = Vec::new();
    if ts.len() == 0 {
        assert(r.deep_view() =~= translations_section(ts.deep_view()));
        return r;
    }
    add_line(&mut r, heading_of("# Translations"));
    let ghost blocks = ts.deep_view().map_values(
        |t: (Seq<char>, Seq<Seq<char>>)| translation_block(t),
    );
    let ghost head = r.deep_view();
    let mut i: usize = 0;
    while i < ts.len()
        invariant
            i <= ts.len(),
            blocks == ts.deep_view().map_values(
                |t: (Seq<char>, Seq<Seq<char>>)| translation_block(t),
            ),
            r.deep_view() == head + joined(blocks.take(i as int)),
        decreases ts.len() - i,
    {
        proof {
            lemma_joined_step(blocks, i as int);
            assert(ts.deep_view()[i as int] == ts@[i as int].deep_view());
        }
        add_lines(&mut r, translation_of(&ts[i]));
        assert(r.deep_view() =~= head + joined(blocks.take(i + 1)));
        i = i + 1;
    }
    assert(blocks.take(ts.len() as int) =~= blocks);
    add_line(&mut r, blank_line());
    assert(r.deep_view() =~= translations_section(ts.deep_view()));
    r
}

fn sentences_of(es: &Vec<ExampleSentence>) -> (r: Vec<String>)
    ensures
        r.deep_view() == sentences_section(es.deep_view()),
{
    let mut r: Vec<String> = Vec::new();
    if es.len() == 0 {
        assert(r.deep_view() =~= sentences_section(es.deep_view()));
        return r;
    }
    add_line(&mut r, heading_of("# Examples"));
    let ghost blocks = es.deep_view().map_values(|e: (Seq<char>, Seq<char>)| sentence_block(e));
    let ghost head = r.deep_view();
    let mut i: usize = 0;
    while i < es.len()
        invariant
            i <= es.len(),
            blocks == es.deep_view().map_values(|e: (Seq<char>, Seq<char>)| sentence_block(e)),
            r.deep_view() == head + joined(blocks.take(i as int)),
        decreases es.len() - i,
    {
        proof {
            lemma_joined_step(blocks, i as int);
            assert(es.deep_view()[i as int] == es@[i as int].deep_view());
            reveal_strlit("");
        }
        add_line(&mut r, item_of(es[i].english_sentence.as_str()));
        add_line(&mut r, fg_framed("    ", Tone::Secondary, es[i].chinese_sentence.as_str(), ""));
        assert(r.deep_view() =~= head + joined(blocks.take(i + 1)));
        i = i + 1;
    }
    assert(blocks.take(es.len() as int) =~= blocks);
    add_line(&mut r, blank_line());
    assert(r.deep_view() =~= sentences_section(es.deep_view()));
    r
}

fn printed_text(lines: &Vec<String>) -> (r: String)
    ensures
        r@ == printed(lines.deep_view()),
{
    let mut out = String::from_str("\n");
    let body = text_of_lines(lines);
    out.append(body.as_str());
    out
}

/// The text printed for an English word explained in Chinese.
pub fn output_chinese(result: &ToChinese) -> (r: String)
    ensures
        r@ == printed(chinese_lines(result.deep_view())),
{
    let mut lines = phonetics_of(&result.phonetic);
    add_lines(&mut lines, translations_of(&result.translations));
    add_lines(&mut lines, sentences_of(&result.example_sentenses));
    assert(lines.deep_view() =~= chinese_lines(result.deep_view()));
    printed_text(&lines)
}

/// The text printed for a Chinese word translated to English.
pub fn output_english(result: &ToEnglish) -> (r: String)
    ensures
        r@ == printed(english_lines(result.deep_view())),
{
    let mut lines: Vec<String> = Vec::new();
    if result.translations.len() > 0 {
        add_line(&mut lines, heading_of("# Translations"));
        add_lines(&mut lines, items_of(&result.translations));
        add_line(&mut lines, blank_line());
    }
    add_lines(&mut lines, sentences_of(&result.example_sentenses));
    assert(lines.deep_view() =~= english_lines(result.deep_view()));
    printed_text(&lines)
}

} // verus!
