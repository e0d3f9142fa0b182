//! Rendering Japanese translations.

use super::{
    add_line, add_lines, blank_line, bullet_lines, bullets, examples_section,
    examples_section_lines, finish, framed, header, header_lines, heading, heading_line, paint,
    painted, rendered, Render, TextPair, Tone,
};
use crate::parse::ja::{Example, Meaning, ToChinese, ToChineseView, ToJapanese, ToJapaneseView};
use crate::text::is_blank;
use vstd::prelude::*;

verus! {

/// The pronunciation section: empty when there is no pronunciation.
pub open spec fn reading_section(colored: bool, reading: Option<(Seq<char>, Seq<char>)>) -> Seq<
    Seq<char>,
> {
    match reading {
        Some((kana, romaji)) => seq![
            heading(colored, "# Pronunciation"@),
            "["@ + painted(colored, Tone::Primary, kana) + " | "@ + painted(
                colored,
                Tone::Primary,
                romaji,
            ) + "]"@,
            Seq::<char>::empty(),
        ],
        None => Seq::empty(),
    }
}

/// The part-of-speech line: in brackets when colored, bare when plain.
pub open spec fn kind_line(colored: bool, kind: Seq<char>) -> Seq<char> {
    if colored {
        "["@ + kind + "]"@
    } else {
        kind
    }
}

/// The meanings section: empty when there is no meaning.
pub open spec fn senses_section(
    colored: bool,
    kind: Option<Seq<char>>,
    meanings: Seq<Seq<char>>,
) -> Seq<Seq<char>> {
    if meanings.len() > 0 {
        seq![heading(colored, "# Meanings"@)] + match kind {
            Some(k) => seq![kind_line(colored, k)],
            None => Seq::empty(),
        } + bullets(colored, meanings) + seq![Seq::<char>::empty()]
    } else {
        Seq::empty()
    }
}

/// The exam section: empty when there is no exam.
pub open spec fn exam_section(colored: bool, exam: Option<Seq<char>>) -> Seq<Seq<char>> {
    match exam {
        Some(e) => seq![
            heading(colored, "# Exam"@),
            painted(colored, Tone::Primary, e),
            Seq::<char>::empty(),
        ],
        None => Seq::empty(),
    }
}

/// The lines of a Japanese word explained in Chinese.
pub open spec fn from_japanese_lines(colored: bool, v: ToChineseView) -> Seq<Seq<char>> {
    header(colored, v.input_text) + reading_section(colored, v.pronunciation) + senses_section(
        colored,
        v.part_of_speech,
        v.meanings,
    ) + exam_section(colored, v.exam) + examples_section(colored, v.examples)
}

/// The line of a Japanese translation: the word in brackets unless it is
/// empty, then its explanation.
pub open spec fn translation_line(colored: bool, m: (Seq<char>, Seq<char>)) -> Seq<char> {
    if m.0.len() > 0 {
        "["@ + painted(colored, Tone::Primary, m.0) + "] "@ + painted(colored, Tone::Primary, m.1)
    } else {
        painted(colored, Tone::Primary, m.1)
    }
}

/// The lines of a Chinese word translated to Japanese.
pub open spec fn to_japanese_lines(colored: bool, v: ToJapaneseView) -> Seq<Seq<char>> {
    header(colored, v.input_text) + (if v.meanings.len() > 0 {
        seq![heading(colored, "# Meanings"@)] + v.meanings.map_values(
            |m: (Seq<char>, Seq<char>)| translation_line(colored, m),
        ) + seq![Seq::<char>::empty()]
    } else {
        Seq::empty()
    }) + examples_section(colored, v.examples)
}

impl TextPair for Example {
    fn first_text(&self) -> (r: &String) {
        &self.ja
    }

    fn second_text(&self) -> (r: &String) {
        &self.zh
    }
}

fn reading_lines(colored: bool, x: &ToChinese) -> (r: Vec<String>)
    ensures
        r.deep_view() == reading_section(colored, x.pronunciation.deep_view()),
{
    let mut r: Vec<String> = Vec::new();
    if let Some(p) = &x.pronunciation {
        add_line(&mut r, heading_line(colored, "# Pronunciation"));
        let mut line = framed("[", colored, Tone::Primary, p.kana.as_str(), " | ");
        line.append(paint(colored, Tone::Primary, p.romaji.as_str()).as_str());
        line.append("]");
        add_line(&mut r, line);
        add_line(&mut r, blank_line());
    }
    assert(r.deep_view() =~= reading_section(colored, x.pronunciation.deep_view()));
    r
}

fn senses_lines(colored: bool, x: &ToChinese) -> (r: Vec<String>)
    ensures
        r.deep_view() == senses_section(
            colored,
            x.part_of_speech.deep_view(),
            x.meanings.deep_view(),
        ),
{
    let mut r: Vec<String> = Vec::new();
    if x.meanings.len() > 0 {
        add_line(&mut r, heading_line(colored, "# Meanings"));
        if let Some(k) = &x.part_of_speech {
            if colored {
                add_line(&mut r, framed("[", false, Tone::Primary, k.as_str(), "]"));
            } else {
                add_line(&mut r, k.clone());
            }
        }
        add_lines(&mut r, bullet_lines(colored, &x.meanings));
        add_line(&mut r, blank_line());
    }
    assert(r.deep_view() =~= senses_section(
        colored,
        x.part_of_speech.deep_view(),
        x.meanings.deep_view(),
    ));
    r
}

fn exam_lines(colored: bool, x: &ToChinese) -> (r: Vec<String>)
    ensures
        r.deep_view() == exam_section(colored, x.exam.deep_view()),
{
    let mut r: Vec<String> = Vec::new();
    if let Some(e) = &x.exam {
        add_line(&mut r, heading_line(colored, "# Exam"));
        add_line(&mut r, paint(colored, Tone::Primary, e.as_str()));
        add_line(&mut r, blank_line());
    }
    assert(r.deep_view() =~= exam_section(colored, x.exam.deep_view()));
    r
}

fn from_japanese_layout(colored: bool, x: &ToChinese) -> (r: Vec<String>)
    ensures
        r.deep_view() == from_japanese_lines(colored, x.deep_view()),
{
    let mut r = header_lines(colored, &x.input_text);
    add_lines(&mut r, reading_lines(colored, x));
    add_lines(&mut r, senses_lines(colored, x));
    add_lines(&mut r, exam_lines(colored, x));
    add_lines(&mut r, examples_section_lines(colored, &x.examples));
    assert(r.deep_view() =~= from_japanese_lines(colored, x.deep_view()));
    r
}

fn translation(colored: bool, m: &Meaning) -> (r: String)
    ensures
        r@ == translation_line(colored, m.deep_view()),
{
    if !is_blank(&m.point) {
        let mut line = framed("[", colored, Tone::Primary, m.point.as_str(), "] ");
        line.append(paint(colored, Tone::Primary, m.definition.as_str()).as_str());
        line
    } else {
        paint(colored, Tone::Primary, m.definition.as_str())
    }
}

fn to_japanese_layout(colored: bool, x: &ToJapanese) -> (r: Vec<String>)
    ensures
        r.deep_view() == to_japanese_lines(colored, x.deep_view()),
{
    let mut r = header_lines(colored, &x.input_text);
    let ghost head = r.deep_view();
    if x.meanings.len() > 0 {
        add_line(&mut r, heading_line(colored, "# Meanings"));
        let ghost start = r.deep_view();
        let ghost want = x.meanings.deep_view().map_values(
            |m: (Seq<char>, Seq<char>)| translation_line(colored, m),
        );
        let mut i: usize = 0;
        while i < x.meanings.len()
            invariant
                i <= x.meanings.len(),
                want == x.meanings.deep_view().map_values(
                    |m: (Seq<char>, Seq<char>)| translation_line(colored, m),
                ),
                r.deep_view() == start + want.take(i as int),
            decreases x.meanings.len() - i,
        {
            proof {
                assert(x.meanings.deep_view()[i as int] == x.meanings@[i as int].deep_view());
            }
            add_line(&mut r, translation(colored, &x.meanings[i]));
            assert(want.take(i + 1) =~= want.take(i as int).push(want[i as int]));
            assert(r.deep_view() =~= start + want.take(i + 1));
            i = i + 1;
        }
        assert(want.take(x.meanings.len() as int) =~= want);
        add_line(&mut r, blank_line());
    }
    add_lines(&mut r, examples_section_lines(colored, &x.examples));
    assert(r.deep_view() =~= to_japanese_lines(colored, x.deep_view()));
    r
}

impl Render for ToChinese {
    fn render_colored(&self) -> (r: String)
        ensures
            r@ == rendered(from_japanese_lines(true, self.deep_view())),
    {
        finish(&from_japanese_layout(true, self))
    }

    fn render_plain(&self) -> (r: String)
        ensures
            r@ == rendered(from_japanese_lines(false, self.deep_view())),
    {
        finish(&from_japanese_layout(false, self))
    }
}

impl Render for ToJapanese {
    fn render_colored(&self) -> (r: String)
        ensures
            r@ == rendered(to_japanese_lines(true, self.deep_view())),
    {
        finish(&to_japanese_layout(true, self))
    }

    fn render_plain(&self) -> (r: String)
        ensures
            r@ == rendered(to_japanese_lines(false, self.deep_view())),
    {
        finish(&to_japanese_layout(false, self))
    }
}

} // verus!
