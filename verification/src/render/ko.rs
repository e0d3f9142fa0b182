//! Rendering Korean translations.

use super::{
    add_line, add_lines, blank_line, bullet_lines, bullets, examples_section,
    examples_section_lines, finish, framed, heading, heading_line, optional_line, painted,
    rendered, Render, TextPair, Tone,
};
use crate::parse::ko::{Example, Meaning, MeaningView, ToChinese, ToChineseView, ToKorean, ToKoreanView};
use crate::parse::{joined, lemma_joined_step};
use vstd::prelude::*;

verus! {

/// The lines of one meaning: its part of speech in brackets, its
/// definitions as bullets, its example indented when `with_example`, then a
/// blank line.
pub open spec fn sense_block(colored: bool, with_example: bool, m: MeaningView) -> Seq<Seq<char>> {
    optional_line(m.0, |p: Seq<char>| "["@ + p + "]"@) + bullets(colored, m.1) + (match m.2 {
        Some(ex) if with_example => seq![
            "  "@ + painted(colored, Tone::Secondary, ex.0),
            "  "@ + painted(colored, Tone::Secondary, ex.1),
        ],
        _ => Seq::empty(),
    }) + seq![Seq::<char>::empty()]
}

/// The meanings section: empty when there is no meaning.
pub open spec fn senses_section(colored: bool, with_example: bool, meanings: Seq<MeaningView>) -> Seq<
    Seq<char>,
> {
    if meanings.len() > 0 {
        seq![heading(colored, "# Meanings"@)] + joined(
            meanings.map_values(|m: MeaningView| sense_block(colored, with_example, m)),
        )
    } else {
        Seq::empty()
    }
}

/// The lines of a Korean word explained in Chinese.
pub open spec fn from_korean_lines(colored: bool, v: ToChineseView) -> Seq<Seq<char>> {
    senses_section(colored, true, v.meanings)
}

/// The lines of a Chinese word translated to Korean.
pub open spec fn to_korean_lines(colored: bool, v: ToKoreanView) -> Seq<Seq<char>> {
    senses_section(colored, false, v.meanings) + examples_section(colored, v.examples)
}

impl TextPair for Example {
    fn first_text(&self) -> (r: &String) {
        &self.ko
    }

    fn second_text(&self) -> (r: &String) {
        &self.zh
    }
}

fn sense_lines(colored: bool, with_example: bool, m: &Meaning) -> (r: Vec<String>)
    ensures
        r.deep_view() == sense_block(colored, with_example, m.deep_view()),
{
    let mut r: Vec<String> = Vec::new();
    if let Some(p) = &m.part_of_speech {
        add_line(&mut r, framed("[", false, Tone::Primary, p.as_str(), "]"));
    }
    add_lines(&mut r, bullet_lines(colored, &m.definitions));
    if with_example {
        if let Some(ex) = &m.example {
            proof {
                reveal_strlit("");
            }
            add_line(&mut r, framed("  ", colored, Tone::Secondary, ex.ko.as_str(), ""));
            add_line(&mut r, framed("  ", colored, Tone::Secondary, ex.zh.as_str(), ""));
        }
    }
    add_line(&mut r, blank_line());
    assert(r.deep_view() =~= sense_block(colored, with_example, m.deep_view()));
    r
}

fn senses_lines(colored: bool, with_example: bool, meanings: &Vec<Meaning>) -> (r: Vec<String>)
    ensures
        r.deep_view() == senses_section(colored, with_example, meanings.deep_view()),
{
    let mut r: Vec<String> = Vec::new();
    if meanings.len() == 0 {
        assert(r.deep_view() =~= senses_section(colored, with_example, meanings.deep_view()));
        return r;
    }
    add_line(&mut r, heading_line(colored, "# Meanings"));
    let ghost blocks = meanings.deep_view().map_values(
        |m: MeaningView| sense_block(colored, with_example, m),
    );
    let ghost head = r.deep_view();
    let mut i: usize = 0;
    while i < meanings.len()
        invariant
            i <= meanings.len(),
            blocks == meanings.deep_view().map_values(
                |m: MeaningView| sense_block(colored, with_example, m),
            ),
            r.deep_view() == head + joined(blocks.take(i as int)),
        decreases meanings.len() - i,
    {
        proof {
            lemma_joined_step(blocks, i as int);
            assert(meanings.deep_view()[i as int] == meanings@[i as int].deep_view());
        }
        add_lines(&mut r, sense_lines(colored, with_example, &meanings[i]));
        assert(r.deep_view() =~= head + joined(blocks.take(i + 1)));
        i = i + 1;
    }
    assert(blocks.take(meanings.len() as int) =~= blocks);
    assert(r.deep_view() =~= senses_section(colored, with_example, meanings.deep_view()));
    r
}

fn to_korean_layout(colored: bool, x: &ToKorean) -> (r: Vec<String>)
    ensures
        r.deep_view() == to_korean_lines(colored, x.deep_view()),
{
    let mut r = senses_lines(colored, false, &x.meanings);
    add_lines(&mut r, examples_section_lines(colored, &x.examples));
    r
}

impl Render for ToChinese {
    fn render_colored(&self) -> (r: String)
        ensures
            r@ == rendered(from_korean_lines(true, self.deep_view())),
    {
        finish(&senses_lines(true, true, &self.meanings))
    }

    fn render_plain(&self) -> (r: String)
        ensures
            r@ == rendered(from_korean_lines(false, self.deep_view())),
    {
        finish(&senses_lines(false, true, &self.meanings))
    }
}

impl Render for ToKorean {
    fn render_colored(&self) -> (r: String)
        ensures
            r@ == rendered(to_korean_lines(true, self.deep_view())),
    {
        finish(&to_korean_layout(true, self))
    }

    fn render_plain(&self) -> (r: String)
        ensures
            r@ == rendered(to_korean_lines(false, self.deep_view())),
    {
        finish(&to_korean_layout(false, self))
    }
}

} // verus!
