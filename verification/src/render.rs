//! Rendering a translation as Markdown text, plain or with ANSI colors.
//!
//! Every renderer first lays the translation out as lines; the output is
//! those lines, each ended by a newline, without the trailing whitespace.

pub mod en;
pub mod fr;
pub mod ja;
pub mod ko;






use crate::parse::{joined, NotFound};
use crate::text::{push_char, stripped_end, strip_end, CharSet};
use owo_colors::OwoColorize;
use vstd::prelude::*;

verus! {

/// Rendering as Markdown.
pub trait Render {
    /// The Markdown text with ANSI color escape sequences.
    fn render_colored(&self) -> String;

    /// The plain Markdown text.
    fn render_plain(&self) -> String;
}

/// The role of a piece of text, which decides its color.
#[derive(Debug, Clone, Copy, PartialEq, Eq)]
pub enum Tone {
    /// The translations themselves: green.
    Primary,
    /// Translated examples: magenta.
    Secondary,
    /// Section headings: bright black.
    Muted,
    /// The word looked up: bold.
    Bold,
}

/// The SGR parameter of a tone.
pub open spec fn sgr(tone: Tone) -> Seq<char> {
    match tone {
        Tone::Primary => seq!['3', '2'],
        Tone::Secondary => seq!['3', '5'],
        Tone::Muted => seq!['9', '0'],
        Tone::Bold => seq!['1'],
    }
}

/// `s` between the escape sequence that selects the SGR parameter `code`
/// and the one that resets all attributes.
pub open spec fn ansi(code: Seq<char>, s: Seq<char>) -> Seq<char> {
    seq!['\u{1b}', '['] + code + seq!['m'] + s + seq!['\u{1b}', '[', '0', 'm']
}

/// `s` in the color of `tone` when `colored`, as it is otherwise.
pub open spec fn painted(colored: bool, tone: Tone, s: Seq<char>) -> Seq<char> {
    if colored {
        ansi(sgr(tone), s)
    } else {
        s
    }
}

/// The text of `lines`, each ended by a newline.
pub open spec fn lines_text(lines: Seq<Seq<char>>) -> Seq<char>
    decreases lines.len(),
{
    if lines.len() == 0 {
        Seq::empty()
    } else {
        lines_text(lines.drop_last()) + lines.last() + seq!['\n']
    }
}

/// The output of a renderer that laid out `lines`.
pub open spec fn rendered(lines: Seq<Seq<char>>) -> Seq<char> {
    stripped_end(lines_text(lines), CharSet::Whitespace)
}

/// A bullet line.
pub open spec fn bullet(colored: bool, t: Seq<char>) -> Seq<char> {
    "* "@ + painted(colored, Tone::Primary, t)
}

/// A bullet line for each text.
pub open spec fn bullets(colored: bool, items: Seq<Seq<char>>) -> Seq<Seq<char>> {
    items.map_values(|t: Seq<char>| bullet(colored, t))
}

/// A section heading.
pub open spec fn heading(colored: bool, title: Seq<char>) -> Seq<char> {
    painted(colored, Tone::Muted, title)
}

/// The lines of an example: the sentence as a bullet, its translation
/// indented below it.
pub open spec fn example_lines(colored: bool, pair: (Seq<char>, Seq<char>)) -> Seq<Seq<char>> {
    seq![bullet(colored, pair.0), "  "@ + painted(colored, Tone::Secondary, pair.1)]
}

/// The examples section: empty when there is no example.
pub open spec fn examples_section(colored: bool, pairs: Seq<(Seq<char>, Seq<char>)>) -> Seq<
    Seq<char>,
> {
    if pairs.len() > 0 {
        seq![heading(colored, "# Examples"@)] + joined(
            pairs.map_values(|p: (Seq<char>, Seq<char>)| example_lines(colored, p)),
        ) + seq![Seq::<char>::empty()]
    } else {
        Seq::empty()
    }
}

/// A section of bullets under a heading, ended by a blank line: empty when
/// there is no item.
pub open spec fn bullet_section(colored: bool, title: Seq<char>, items: Seq<Seq<char>>) -> Seq<
    Seq<char>,
> {
    if items.len() > 0 {
        seq![heading(colored, title)] + bullets(colored, items) + seq![Seq::<char>::empty()]
    } else {
        Seq::empty()
    }
}

/// The lines of a page without translation.
pub open spec fn not_found_lines(colored: bool, suggestions: Seq<Seq<char>>) -> Seq<Seq<char>> {
    seq![heading(colored, "Did you mean:"@)] + bullets(colored, suggestions)
}

/// `s` in owo-colors' green style (`Style::new().green()`).
#[verifier::external_body]
fn in_green(s: &str) -> (r: String)
    ensures
        r@ == ansi(seq!['3', '2'], s@),
{
    format!("{}", s.style(owo_colors::Style::new().green()))
}

/// `s` in owo-colors' magenta style (`Style::new().magenta()`).
#[verifier::external_body]
fn in_magenta(s: &str) -> (r: String)
    ensures
        r@ == ansi(seq!['3', '5'], s@),
{
    format!("{}", s.style(owo_colors::Style::new().magenta()))
}

/// `s` in owo-colors' bright black style (`Style::new().bright_black()`).
#[verifier::external_body]
fn in_bright_black(s: &str) -> (r: String)
    ensures
        r@ == ansi(seq!['9', '0'], s@),
{
    format!("{}", s.style(owo_colors::Style::new().bright_black()))
}

/// `s` in bold (`OwoColorize::bold`).
#[verifier::external_body]
fn in_bold(s: &str) -> (r: String)
    ensures
        r@ == ansi(seq!['1'], s@),
{
    format!("{}", s.bold())
}

/// `s` between the escape sequence that selects the foreground color
/// `code` and the one that resets the foreground color only.
pub open spec fn fg_ansi(code: Seq<char>, s: Seq<char>) -> Seq<char> {
    seq!['\u{1b}', '['] + code + seq!['m'] + s + seq!['\u{1b}', '[', '3', '9', 'm']
}

/// `s` in owo-colors' green foreground (`OwoColorize::green`).
#[verifier::external_body]
fn fg_green(s: &str) -> (r: String)
    ensures
        r@ == fg_ansi(seq!['3', '2'], s@),
{
    format!("{}", s.green())
}

/// `s` in owo-colors' magenta foreground (`OwoColorize::magenta`).
#[verifier::external_body]
fn fg_magenta(s: &str) -> (r: String)
    ensures
        r@ == fg_ansi(seq!['3', '5'], s@),
{
    format!("{}", s.magenta())
}

/// `s` in owo-colors' bright black foreground (`OwoColorize::bright_black`).
#[verifier::external_body]
fn fg_bright_black(s: &str) -> (r: String)
    ensures
        r@ == fg_ansi(seq!['9', '0'], s@),
{
    format!("{}", s.bright_black())
}

/// `s` in the foreground color of `tone`, which is not `Bold`, reset by the
/// foreground reset alone.
pub fn fg_paint(tone: Tone, s: &str) -> (r: String)
    requires
        !(tone is Bold),
    ensures
        r@ == fg_ansi(sgr(tone), s@),
{
    match tone {
        Tone::Primary => fg_green(s),
        Tone::Secondary => fg_magenta(s),
        _ => fg_bright_black(s),
    }
}

/// `s` in the color of `tone` when `colored`.
pub fn paint(colored: bool, tone: Tone, s: &str) -> (r: String)
    ensures
        r@ == painted(colored, tone, s@),
{
    if !colored {
        return s.to_owned();
    }
    match tone {
        Tone::Primary => in_green(s),
        Tone::Secondary => in_magenta(s),
        Tone::Muted => in_bright_black(s),
        Tone::Bold => in_bold(s),
    }
}

/// `prefix`, then `s` in the color of `tone` when `colored`, then `suffix`.
pub fn framed(prefix: &str, colored: bool, tone: Tone, s: &str, suffix: &str) -> (r: String)
    ensures
        r@ == prefix@ + painted(colored, tone, s@) + suffix@,
{
    let mut r = String::from_str(prefix);
    r.append(paint(colored, tone, s).as_str());
    r.append(suffix);
    r
}

/// A bullet line.
pub fn bullet_line(colored: bool, t: &str) -> (r: String)
    ensures
        r@ == bullet(colored, t@),
{
    let r = framed("* ", colored, Tone::Primary, t, "");
    proof {
        reveal_strlit("");
    }
    assert(r@ =~= bullet(colored, t@));
    r
}

/// A section heading.
pub fn heading_line(colored: bool, title: &str) -> (r: String)
    ensures
        r@ == heading(colored, title@),
{
    paint(colored, Tone::Muted, title)
}

/// An empty line.
pub fn blank_line() -> (r: String)
    ensures
        r@ == Seq::<char>::empty(),
{
    String::new()
}

/// A bullet line for each text.
pub fn bullet_lines(colored: bool, items: &Vec<String>) -> (r: Vec<String>)
    ensures
        r.deep_view() == bullets(colored, items.deep_view()),
{
    let ghost want = bullets(colored, items.deep_view());
    let mut r: Vec<String> = Vec::new();
    let mut i: usize = 0;
    while i < items.len()
        invariant
            i <= items.len(),
            want == bullets(colored, items.deep_view()),
            r.deep_view() =~= want.take(i as int),
        decreases items.len() - i,
    {
        let line = bullet_line(colored, items[i].as_str());
        let ghost before = r.deep_view();
        r.push(line);
        proof {
            assert(items.deep_view()[i as int] == items@[i as int]@);
            assert(r.deep_view() =~= before.push(line@));
            assert(want.take(i + 1) =~= want.take(i as int).push(line@));
        }
        i = i + 1;
    }
    assert(want.take(items.len() as int) =~= want);
    r
}

/// Appends the lines `more` to `lines`.
pub fn add_lines(lines: &mut Vec<String>, more: Vec<String>)
    ensures
        final(lines).deep_view() == old(lines).deep_view() + more.deep_view(),
{
    let ghost before = lines.deep_view();
    let ghost added = more.deep_view();
    let mut more = more;
    lines.append(&mut more);
    assert(lines.deep_view() =~= before + added);
}

/// Appends the line `line` to `lines`.
pub fn add_line(lines: &mut Vec<String>, line: String)
    ensures
        final(lines).deep_view() == old(lines).deep_view().push(line@),
{
    let ghost before = lines.deep_view();
    lines.push(line);
    assert(lines.deep_view() =~= before.push(line@));
}

/// A section of bullets under a heading.
pub fn bullet_section_lines(colored: bool, title: &str, items: &Vec<String>) -> (r: Vec<String>)
    ensures
        r.deep_view() == bullet_section(colored, title@, items.deep_view()),
{
    let mut r: Vec<String> = Vec::new();
    if items.len() > 0 {
        add_line(&mut r, heading_line(colored, title));
        add_lines(&mut r, bullet_lines(colored, items));
        add_line(&mut r, blank_line());
    }
    assert(r.deep_view() =~= bullet_section(colored, title@, items.deep_view()));
    r
}

/// A sentence with its translation.
pub trait TextPair: DeepView<V = (Seq<char>, Seq<char>)> {
    /// The sentence.
    fn first_text(&self) -> (r: &String)
        ensures
            r@ == self.deep_view().0,
    ;

    /// Its translation.
    fn second_text(&self) -> (r: &String)
        ensures
            r@ == self.deep_view().1,
    ;
}

/// The examples section.
pub fn examples_section_lines<T: TextPair>(colored: bool, examples: &Vec<T>) -> (r: Vec<String>)
    ensures
        r.deep_view() == examples_section(colored, examples.deep_view()),
{
    let mut r: Vec<String> = Vec::new();
    if examples.len() == 0 {
        assert(r.deep_view() =~= examples_section(colored, examples.deep_view()));
        return r;
    }
    add_line(&mut r, heading_line(colored, "# Examples"));
    let ghost blocks = examples.deep_view().map_values(
        |p: (Seq<char>, Seq<char>)| example_lines(colored, p),
    );
    let ghost head = r.deep_view();
    let mut i: usize = 0;
    while i < examples.len()
        invariant
            i <= examples.len(),
            blocks == examples.deep_view().map_values(
                |p: (Seq<char>, Seq<char>)| example_lines(colored, p),
            ),
            r.deep_view() == head + joined(blocks.take(i as int)),
        decreases examples.len() - i,
    {
        proof {
            crate::parse::lemma_joined_step(blocks, i as int);
            assert(examples.deep_view()[i as int] == examples@[i as int].deep_view());
        }
        let ghost before = r.deep_view();
        proof {
            reveal_strlit("");
        }
        add_line(&mut r, bullet_line(colored, examples[i].first_text().as_str()));
        add_line(&mut r, framed("  ", colored, Tone::Secondary, examples[i].second_text().as_str(), ""));
        assert(r.deep_view() =~= head + joined(blocks.take(i + 1)));
        i = i + 1;
    }
    assert(blocks.take(examples.len() as int) =~= blocks);
    add_line(&mut r, blank_line());
    assert(r.deep_view() =~= examples_section(colored, examples.deep_view()));
    r
}

/// The word looked up, then a blank line.
pub open spec fn header(colored: bool, word: Seq<char>) -> Seq<Seq<char>> {
    seq![painted(colored, Tone::Bold, word), Seq::<char>::empty()]
}

/// A line for `t` when there is one.
pub open spec fn optional_line(t: Option<Seq<char>>, line: spec_fn(Seq<char>) -> Seq<char>) -> Seq<
    Seq<char>,
> {
    match t {
        Some(t) => seq![line(t)],
        None => Seq::empty(),
    }
}

/// The word looked up, then a blank line.
pub fn header_lines(colored: bool, word: &String) -> (r: Vec<String>)
    ensures
        r.deep_view() == header(colored, word@),
{
    let mut r: Vec<String> = Vec::new();
    add_line(&mut r, paint(colored, Tone::Bold, word.as_str()));
    add_line(&mut r, blank_line());
    assert(r.deep_view() =~= header(colored, word@));
    r
}

/// The laid-out `lines`, each ended by a newline.
pub fn text_of_lines(lines: &Vec<String>) -> (r: String)
    ensures
        r@ == lines_text(lines.deep_view()),
{
    let mut out = String::new();
    let mut i: usize = 0;
    while i < lines.len()
        invariant
            i <= lines.len(),
            out@ == lines_text(lines.deep_view().take(i as int)),
        decreases lines.len() - i,
    {
        proof {
            assert(lines.deep_view().take(i + 1).drop_last() =~= lines.deep_view().take(i as int));
            assert(lines.deep_view()[i as int] == lines@[i as int]@);
        }
        out.append(lines[i].as_str());
        push_char(&mut out, '\n');
        i = i + 1;
    }
    assert(lines.deep_view().take(lines.len() as int) =~= lines.deep_view());
    out
}

/// The output for the laid-out `lines`: each ended by a newline, without
/// the trailing whitespace.
pub fn finish(lines: &Vec<String>) -> (r: String)
    ensures
        r@ == rendered(lines.deep_view()),
{
    let out = text_of_lines(lines);
    strip_end(out.as_str(), CharSet::Whitespace)
}

/// The lines of a page without translation.
fn not_found_layout(nf: &NotFound, colored: bool) -> (r: Vec<String>)
    ensures
        r.deep_view() == not_found_lines(colored, nf.deep_view()),
{
    let mut r: Vec<String> = Vec::new();
    add_line(&mut r, heading_line(colored, "Did you mean:"));
    add_lines(&mut r, bullet_lines(colored, &nf.suggestions));
    r
}

impl Render for NotFound {
    fn render_colored(&self) -> (r: String)
        ensures
            r@ == rendered(not_found_lines(true, self.deep_view())),
    {
        finish(&not_found_layout(self, true))
    }

    fn render_plain(&self) -> (r: String)
        ensures
            r@ == rendered(not_found_lines(false, self.deep_view())),
    {
        finish(&not_found_layout(self, false))
    }
}

} // verus!
