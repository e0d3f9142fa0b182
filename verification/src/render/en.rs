//! Rendering English translations.

use super::{
    header, header_lines, optional_line, add_line, add_lines, blank_line, bullet_lines, bullet_section, bullet_section_lines,
    bullets, examples_section, examples_section_lines, finish, framed, heading, heading_line,
    painted, rendered, Render, TextPair, Tone,
};
use crate::parse::en::{Example, Meaning, ToChinese, ToChineseView, ToEnglish, ToEnglishView};
use crate::parse::{joined, lemma_joined_step};
use vstd::prelude::*;

verus! {

/// The pronunciation section: empty when there is no pronunciation.
pub open spec fn pronunciation_section(
    colored: bool,
    accents: (Option<Seq<char>>, Option<Seq<char>>),
) -> Seq<Seq<char>> {
    if accents.0 is Some || accents.1 is Some {
        seq![heading(colored, "# Pronunciation"@)] + optional_line(
            accents.0,
            |t: Seq<char>| "英：["@ + painted(colored, Tone::Primary, t) + "]"@,
        ) + optional_line(
            accents.1,
            |t: Seq<char>| "美：["@ + painted(colored, Tone::Primary, t) + "]"@,
        ) + seq![Seq::<char>::empty()]
    } else {
        Seq::empty()
    }
}

/// The lines of one meaning: its part of speech in brackets, its
/// definitions as bullets, a blank line.
pub open spec fn meaning_block(colored: bool, m: (Option<Seq<char>>, Seq<Seq<char>>)) -> Seq<
    Seq<char>,
> {
    optional_line(m.0, |p: Seq<char>| "["@ + p + "]"@) + bullets(colored, m.1) + seq![
        Seq::<char>::empty(),
    ]
}

/// The meanings section: empty when there is no meaning.
pub open spec fn meanings_section(
    colored: bool,
    meanings: Seq<(Option<Seq<char>>, Seq<Seq<char>>)>,
) -> Seq<Seq<char>> {
    if meanings.len() > 0 {
        seq![heading(colored, "# Meanings"@)] + joined(
            meanings.map_values(|m: (Option<Seq<char>>, Seq<Seq<char>>)| meaning_block(colored, m)),
        )
    } else {
        Seq::empty()
    }
}

/// The lines of an English word explained in Chinese.
pub open spec fn from_english_lines(colored: bool, v: ToChineseView) -> Seq<Seq<char>> {
    header(colored, v.input_text) + pronunciation_section(colored, v.pronunciation)
        + meanings_section(colored, v.meanings) + examples_section(colored, v.examples)
}

/// The lines of a Chinese word translated to English.
pub open spec fn to_english_lines(colored: bool, v: ToEnglishView) -> Seq<Seq<char>> {
    header(colored, v.input_text) + bullet_section(colored, "# Meanings"@, v.meanings)
        + examples_section(colored, v.examples)
}

impl TextPair for Example {
    fn first_text(&self) -> (r: &String) {
        &self.en
    }

    fn second_text(&self) -> (r: &String) {
        &self.zh
    }
}

fn pronunciation_lines(colored: bool, uk: &Option<String>, us: &Option<String>) -> (r: Vec<
    String,
>)
    ensures
        r.deep_view() == pronunciation_section(colored, (uk.deep_view(), us.deep_view())),
{
    let mut r: Vec<String> = Vec::new();
    if uk.is_none() && us.is_none() {
        assert(r.deep_view() =~= pronunciation_section(colored, (uk.deep_view(), us.deep_view())));
        return r;
    }
    add_line(&mut r, heading_line(colored, "# Pronunciation"));
    if let Some(uk) = uk {
        add_line(&mut r, framed("英：[", colored, Tone::Primary, uk.as_str(), "]"));
    }
    if let Some(us) = us {
        add_line(&mut r, framed("美：[", colored, Tone::Primary, us.as_str(), "]"));
    }
    add_line(&mut r, blank_line());
    assert(r.deep_view() =~= pronunciation_section(colored, (uk.deep_view(), us.deep_view())));
    r
}

fn meaning_lines(colored: bool, m: &Meaning) -> (r: Vec<String>)
    ensures
        r.deep_view() == meaning_block(colored, m.deep_view()),
{
    let mut r: Vec<String> = Vec::new();
    if let Some(p) = &m.part_of_speech {
        add_line(&mut r, framed("[", false, Tone::Primary, p.as_str(), "]"));
    }
    add_lines(&mut r, bullet_lines(colored, &m.definitions));
    add_line(&mut r, blank_line());
    assert(r.deep_view() =~= meaning_block(colored, m.deep_view()));
    r
}

fn meanings_lines(colored: bool, meanings: &Vec<Meaning>) -> (r: Vec<String>)
    ensures
        r.deep_view() == meanings_section(colored, meanings.deep_view()),
{
    let mut r: Vec<String> = Vec::new();
    if meanings.len() == 0 {
        assert(r.deep_view() =~= meanings_section(colored, meanings.deep_view()));
        return r;
    }
    add_line(&mut r, heading_line(colored, "# Meanings"));
    let ghost blocks = meanings.deep_view().map_values(
        |m: (Option<Seq<char>>, Seq<Seq<char>>)| meaning_block(colored, m),
    );
    let ghost head = r.deep_view();
    let mut i: usize = 0;
    while i < meanings.len()
        invariant
            i <= meanings.len(),
            blocks == meanings.deep_view().map_values(
                |m: (Option<Seq<char>>, Seq<Seq<char>>)| meaning_block(colored, m),
            ),
            r.deep_view() == head + joined(blocks.take(i as int)),
        decreases meanings.len() - i,
    {
        proof {
            lemma_joined_step(blocks, i as int);
            assert(meanings.deep_view()[i as int] == meanings@[i as int].deep_view());
        }
        add_lines(&mut r, meaning_lines(colored, &meanings[i]));
        assert(r.deep_view() =~= head + joined(blocks.take(i + 1)));
        i = i + 1;
    }
    assert(blocks.take(meanings.len() as int) =~= blocks);
    assert(r.deep_view() =~= meanings_section(colored, meanings.deep_view()));
    r
}

fn from_english_layout(colored: bool, x: &ToChinese) -> (r: Vec<String>)
    ensures
        r.deep_view() == from_english_lines(colored, x.deep_view()),
{
    let mut r = header_lines(colored, &x.input_text);
    add_lines(&mut r, pronunciation_lines(colored, &x.pronunciation.uk, &x.pronunciation.us));
    add_lines(&mut r, meanings_lines(colored, &x.meanings));
    add_lines(&mut r, examples_section_lines(colored, &x.examples));
    assert(r.deep_view() =~= from_english_lines(colored, x.deep_view()));
    r
}

fn to_english_layout(colored: bool, x: &ToEnglish) -> (r: Vec<String>)
    ensures
        r.deep_view() == to_english_lines(colored, x.deep_view()),
{
    let mut r = header_lines(colored, &x.input_text);
    add_lines(&mut r, bullet_section_lines(colored, "# Meanings", &x.meanings));
    add_lines(&mut r, examples_section_lines(colored, &x.examples));
    assert(r.deep_view() =~= to_english_lines(colored, x.deep_view()));
    r
}

impl Render for ToChinese {
    fn render_colored(&self) -> (r: String)
        ensures
            r@ == rendered(from_english_lines(true, self.deep_view())),
    {
        finish(&from_english_layout(true, self))
    }

    fn render_plain(&self) -> (r: String)
        ensures
            r@ == rendered(from_english_lines(false, self.deep_view())),
    {
        finish(&from_english_layout(false, self))
    }
}

impl Render for ToEnglish {
    fn render_colored(&self) -> (r: String)
        ensures
            r@ == rendered(to_english_lines(true, self.deep_view())),
    {
        finish(&to_english_layout(true, self))
    }

    fn render_plain(&self) -> (r: String)
        ensures
            r@ == rendered(to_english_lines(false, self.deep_view())),
    {
        finish(&to_english_layout(false, self))
    }
}

} // verus!
