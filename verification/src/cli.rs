//! What the command line decides and prints: the output format, where the
//! text to look up comes from, and the text printed for a translation (the
//! rendering indented by two spaces, a note when it came from the cache, and
//! a blank line before and after).

use crate::rdict::{translation_lines, FetchedResult};
use crate::render::{fg_ansi, fg_paint, rendered, sgr, Tone};
use crate::text::{
    chars_of, lemma_pieces_nonempty, pieces, push_char, rejoined, split, string_of, trim, trimmed,
    CharSet,
};
use vstd::prelude::*;

verus! {

/// `p` without the carriage return that ends it, if any.
pub open spec fn without_cr(p: Seq<char>) -> Seq<char> {
    if p.len() > 0 && p.last() == '\r' {
        p.drop_last()
    } else {
        p
    }
}

/// The lines of `s`, as `str::lines` reads them: the pieces between the
/// line feeds, without a last piece that is empty, and without the carriage
/// return that precedes a line feed.
pub open spec fn text_lines(s: Seq<char>) -> Seq<Seq<char>> {
    let ps = pieces(s, CharSet::Only('\n'));
    let kept = if ps.last().len() == 0 {
        ps.drop_last()
    } else {
        ps
    };
    Seq::new(
        kept.len(),
        |i: int|
            if i < ps.len() - 1 {
                without_cr(kept[i])
            } else {
                kept[i]
            },
    )
}

/// Each line of `s` behind two spaces, the lines joined by line feeds.
pub open spec fn indented(s: Seq<char>) -> Seq<char> {
    rejoined(text_lines(s).map_values(|l: Seq<char>| "  "@ + l), '\n')
}

/// The note that a translation of `input_text` came from the cache.
pub open spec fn cache_note(input_text: Seq<char>) -> Seq<char> {
    "\n\n  "@ + fg_ansi(sgr(Tone::Muted), "[ "@ + input_text + " ] From cache"@)
}

/// What the command line prints for the rendering `output` of a lookup of
/// `input_text`.
pub open spec fn screen_text(output: Seq<char>, is_cached: bool, input_text: Seq<char>) -> Seq<
    char,
> {
    "\n"@ + indented(output) + (if is_cached {
        cache_note(input_text)
    } else {
        Seq::empty()
    }) + "\n"@
}

/// How a translation is printed.
#[derive(Debug, Clone, Copy, PartialEq, Eq)]
pub enum Format {
    /// Markdown with ANSI color escape sequences.
    MarkdownColored,
    /// Plain Markdown.
    Markdown,
    /// Formatted JSON.
    Json,
}

/// The format asked for: JSON when `json`, colored Markdown when the
/// terminal takes colors, plain Markdown otherwise.
pub fn choose_format(json: bool, colors_enabled: bool) -> (r: Format)
    ensures
        json ==> r == Format::Json,
        !json && colors_enabled ==> r == Format::MarkdownColored,
        !json && !colors_enabled ==> r == Format::Markdown,
{
    if json {
        Format::Json
    } else if colors_enabled {
        Format::MarkdownColored
    } else {
        Format::Markdown
    }
}

/// Where the text to look up comes from.
#[derive(Debug, Clone, PartialEq, Eq)]
pub enum Source {
    /// The words given as arguments, joined by spaces.
    Arguments(String),
    /// The standard input, which is piped.
    Pipe,
    /// A prompt, one line at a time.
    Interactive,
}

/// The words `words`, joined by spaces.
pub fn join_words(words: &Vec<String>) -> (r: String)
    ensures
        r@ == rejoined(words.deep_view(), ' '),
{
    let ghost ws = words.deep_view();
    let mut out = String::new();
    let mut i: usize = 0;
    while i < words.len()
        invariant
            i <= words.len(),
            ws == words.deep_view(),
            out@ == rejoined(ws.take(i as int), ' '),
        decreases words.len() - i,
    {
        proof {
            assert(ws.take(i + 1).drop_last() =~= ws.take(i as int));
            assert(ws[i as int] == words@[i as int]@);
        }
        if i > 0 {
            push_char(&mut out, ' ');
        }
        out.append(words[i].as_str());
        proof {
            if i == 0 {
                assert(out@ =~= ws.take(1)[0]);
            } else {
                assert(out@ =~= rejoined(ws.take(i as int), ' ').push(' ') + ws[i as int]);
            }
        }
        i = i + 1;
    }
    assert(ws.take(words.len() as int) =~= ws);
    out
}

/// The text read from a pipe, trimmed; `None` when nothing but whitespace
/// was read.
pub fn piped_text(buffer: &str) -> (r: Option<String>)
    ensures
        trimmed(buffer@).len() == 0 ==> r is None,
        trimmed(buffer@).len() > 0 ==> (r matches Some(t) && t@ == trimmed(buffer@)),
{
    let t = trim(buffer);
    if t.as_str().is_empty() {
        None
    } else {
        Some(t)
    }
}

/// Where the text comes from: the arguments when there are any, else the
/// standard input when it is piped, else a prompt.
pub fn source_of(args: &Vec<String>, stdin_is_piped: bool) -> (r: Source)
    ensures
        args.len() > 0 ==> (r matches Source::Arguments(q) && q@ == rejoined(args.deep_view(), ' ')),
        args.len() == 0 && stdin_is_piped ==> r == Source::Pipe,
        args.len() == 0 && !stdin_is_piped ==> r == Source::Interactive,
{
    if args.len() > 0 {
        Source::Arguments(join_words(args))
    } else if stdin_is_piped {
        Source::Pipe
    } else {
        Source::Interactive
    }
}

/// Whether a terminal takes ANSI escape sequences: not when `NO_COLOR` is
/// set (`no_color`), and otherwise when `TERM` is set (`term`) to anything
/// but `dumb`.
pub fn ansi_supported(no_color: bool, term: &Option<String>) -> (r: bool)
    ensures
        r == (!no_color && (term matches Some(t) && t@ != "dumb"@)),
{
    if no_color {
        return false;
    }
    match term {
        Some(t) => {
            let dumb = String::from_str("dumb");
            !(*t == dumb)
        },
        None => false,
    }
}

/// `p` without the carriage return that ends it, if any.
fn strip_cr(p: &str) -> (r: String)
    ensures
        r@ == without_cr(p@),
{
    let v = chars_of(p);
    let n = v.len();
    if n > 0 && v[n - 1] == '\r' {
        let r = string_of(&v, 0, n - 1);
        assert(r@ =~= p@.drop_last());
        r
    } else {
        let r = string_of(&v, 0, n);
        assert(r@ =~= p@);
        r
    }
}

/// The lines of `s`, as `str::lines` reads them.
pub fn lines_of(s: &str) -> (r: Vec<String>)
    ensures
        r.deep_view() == text_lines(s@),
{
    let ps = split(s, CharSet::Only('\n'));
    proof {
        lemma_pieces_nonempty(s@, CharSet::Only('\n'));
    }
    let n = ps.len();
    let kept = if ps[n - 1].as_str().is_empty() {
        n - 1
    } else {
        n
    };
    let ghost want = text_lines(s@);
    assert(want.len() == kept);
    let mut r: Vec<String> = Vec::new();
    let mut i: usize = 0;
    while i < kept
        invariant
            i <= kept <= n == ps.len(),
            ps.deep_view() == pieces(s@, CharSet::Only('\n')),
            want == text_lines(s@),
            want.len() == kept,
            r.deep_view() =~= want.take(i as int),
        decreases kept - i,
    {
        assert(ps.deep_view()[i as int] == ps@[i as int]@);
        let line = if i + 1 < n {
            strip_cr(ps[i].as_str())
        } else {
            ps[i].as_str().to_owned()
        };
        let ghost before = r.deep_view();
        r.push(line);
        proof {
            assert(r.deep_view() =~= before.push(line@));
            assert(want.take(i + 1) =~= want.take(i as int).push(line@));
        }
        i = i + 1;
    }
    assert(want.take(kept as int) =~= want);
    r
}

/// Each line of `s` behind two spaces, the lines joined by line feeds.
pub fn indent(s: &str) -> (r: String)
    ensures
        r@ == indented(s@),
{
    let lines = lines_of(s);
    let ghost ind = text_lines(s@).map_values(|l: Seq<char>| "  "@ + l);
    let mut out = String::new();
    let mut i: usize = 0;
    while i < lines.len()
        invariant
            i <= lines.len(),
            lines.deep_view() == text_lines(s@),
            ind == text_lines(s@).map_values(|l: Seq<char>| "  "@ + l),
            out@ == rejoined(ind.take(i as int), '\n'),
        decreases lines.len() - i,
    {
        proof {
            assert(ind.take(i + 1).drop_last() =~= ind.take(i as int));
            assert(lines.deep_view()[i as int] == lines@[i as int]@);
        }
        if i > 0 {
            push_char(&mut out, '\n');
        }
        out.append("  ");
        out.append(lines[i].as_str());
        proof {
            if i == 0 {
                assert(out@ =~= ind.take(1)[0]);
            } else {
                assert(out@ =~= rejoined(ind.take(i as int), '\n').push('\n') + ind[i as int]);
            }
        }
        i = i + 1;
    }
    assert(ind.take(lines.len() as int) =~= ind);
    out
}

/// What the command line prints for the rendering `output` of a lookup of
/// `input_text`: the output indented, the cache note when it came from the
/// cache, a line feed before and after.
pub fn screen_output(output: &str, is_cached: bool, input_text: &str) -> (r: String)
    ensures
        r@ == screen_text(output@, is_cached, input_text@),
{
    let mut out = String::from_str("\n");
    out.append(indent(output).as_str());
    if is_cached {
        let mut note = String::from_str("[ ");
        note.append(input_text);
        note.append(" ] From cache");
        out.append("\n\n  ");
        out.append(fg_paint(Tone::Muted, note.as_str()).as_str());
    }
    out.append("\n");
    assert(out@ =~= screen_text(output@, is_cached, input_text@));
    out
}

/// What the command line prints for the lookup of `input_text` that gave
/// `result`, an English or a Chinese word's translation, rendered with
/// colors when `colored`.
pub fn result_output(result: &FetchedResult, colored: bool, input_text: &str) -> (r: String)
    requires
        result.data is FromEnglish || result.data is ToEnglish,
    ensures
        r@ == screen_text(
            rendered(translation_lines(colored, result.data.deep_view())),
            result.is_cached,
            input_text@,
        ),
{
    let output = if colored {
        result.data.render_colored()
    } else {
        result.data.render_plain()
    };
    screen_output(output.as_str(), result.is_cached, input_text)
}

/// Whether the text `output` goes to a pager on a terminal `height` rows
/// high: when the rows left after four for the shell prompt are fewer than
/// its lines, their count taken as a `u16` (modulo 65536).
pub fn needs_pager(height: u16, output: &str) -> (r: bool)
    requires
        height >= 4,
    ensures
        r == ((height - 4) < (text_lines(output@).len() as u16)),
{
    let lines = lines_of(output);
    let count: u16 = lines.len() as u16;
    height - 4 < count
}

} // verus!
