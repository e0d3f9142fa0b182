//! Rendering French translations.

use super::{
    add_line, add_lines, blank_line, bullet_section, bullet_section_lines, examples_section,
    examples_section_lines, finish, framed, heading, heading_line, painted, rendered, Render,
    TextPair, Tone,
};
use crate::parse::fr::{Example, ToChinese, ToChineseView, ToFrench, ToFrenchView};
use vstd::prelude::*;

verus! {

/// The pronunciation section: empty when there is no pronunciation.
pub open spec fn phonetic_section(colored: bool, phonetic: Option<Seq<char>>) -> Seq<Seq<char>> {
    match phonetic {
        Some(p) => seq![
            heading(colored, "# Pronunciation"@),
            "["@ + painted(colored, Tone::Primary, p) + "]"@,
            Seq::<char>::empty(),
        ],
        None => Seq::empty(),
    }
}

/// The lines of a French word explained in Chinese.
pub open spec fn from_french_lines(colored: bool, v: ToChineseView) -> Seq<Seq<char>> {
    phonetic_section(colored, v.pronunciation) + bullet_section(colored, "# Meanings"@, v.meanings)
        + examples_section(colored, v.examples)
}

/// The lines of a Chinese word translated to French.
pub open spec fn to_french_lines(colored: bool, v: ToFrenchView) -> Seq<Seq<char>> {
    bullet_section(colored, "# Meanings"@, v.meanings) + examples_section(colored, v.examples)
}

impl TextPair for Example {
    fn first_text(&self) -> (r: &String) {
        &self.fr
    }

    fn second_text(&self) -> (r: &String) {
        &self.zh
    }
}

fn from_french_layout(colored: bool, x: &ToChinese) -> (r: Vec<String>)
    ensures
        r.deep_view() == from_french_lines(colored, x.deep_view()),
{
    let mut r: Vec<String> = Vec::new();
    if let Some(p) = &x.pronunciation {
        add_line(&mut r, heading_line(colored, "# Pronunciation"));
        add_line(&mut r, framed("[", colored, Tone::Primary, p.as_str(), "]"));
        add_line(&mut r, blank_line());
    }
    assert(r.deep_view() =~= phonetic_section(colored, x.pronunciation.deep_view()));
    add_lines(&mut r, bullet_section_lines(colored, "# Meanings", &x.meanings));
    add_lines(&mut r, examples_section_lines(colored, &x.examples));
    assert(r.deep_view() =~= from_french_lines(colored, x.deep_view()));
    r
}

fn to_french_layout(colored: bool, x: &ToFrench) -> (r: Vec<String>)
    ensures
        r.deep_view() == to_french_lines(colored, x.deep_view()),
{
    let mut r = bullet_section_lines(colored, "# Meanings", &x.meanings);
    add_lines(&mut r, examples_section_lines(colored, &x.examples));
    r
}

impl Render for ToChinese {
    fn render_colored(&self) -> (r: String)
        ensures
            r@ == rendered(from_french_lines(true, self.deep_view())),
    {
        finish(&from_french_layout(true, self))
    }

    fn render_plain(&self) -> (r: String)
        ensures
            r@ == rendered(from_french_lines(false, self.deep_view())),
    {
        finish(&from_french_layout(false, self))
    }
}

impl Render for ToFrench {
    fn render_colored(&self) -> (r: String)
        ensures
            r@ == rendered(to_french_lines(true, self.deep_view())),
    {
        finish(&to_french_layout(true, self))
    }

    fn render_plain(&self) -> (r: String)
        ensures
            r@ == rendered(to_french_lines(false, self.deep_view())),
    {
        finish(&to_french_layout(false, self))
    }
}

} // verus!
