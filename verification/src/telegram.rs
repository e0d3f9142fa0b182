//! The reply that the chat bot sends for a translation: the plain Markdown
//! rendering, escaped as HTML text and set in a code block.

use crate::parse::joined;
use crate::rdict::{translation_lines, TranslationData};
use crate::render::rendered;
use vstd::prelude::*;

verus! {

/// The HTML text escape of one character: `&`, `<` and `>` become entities,
/// every other character stands as it is.
pub open spec fn escaped_char(c: char) -> Seq<char> {
    if c == '&' {
        seq!['&', 'a', 'm', 'p', ';']
    } else if c == '<' {
        seq!['&', 'l', 't', ';']
    } else if c == '>' {
        seq!['&', 'g', 't', ';']
    } else {
        seq![c]
    }
}

/// The HTML text escape of `s`, character by character.
pub open spec fn html_escaped(s: Seq<char>) -> Seq<char> {
    joined(s.map_values(|c: char| escaped_char(c)))
}

/// The text that the HTML text `s` stands for: `&amp;`, `&lt;` and `&gt;`
/// read as `&`, `<` and `>`, every other character as it is.
pub open spec fn html_unescaped(s: Seq<char>) -> Seq<char>
    decreases s.len(),
{
    if s.len() == 0 {
        Seq::empty()
    } else if s.len() >= 5 && s.subrange(0, 5) == seq!['&', 'a', 'm', 'p', ';'] {
        seq!['&'] + html_unescaped(s.subrange(5, s.len() as int))
    } else if s.len() >= 4 && s.subrange(0, 4) == seq!['&', 'l', 't', ';'] {
        seq!['<'] + html_unescaped(s.subrange(4, s.len() as int))
    } else if s.len() >= 4 && s.subrange(0, 4) == seq!['&', 'g', 't', ';'] {
        seq!['>'] + html_unescaped(s.subrange(4, s.len() as int))
    } else {
        seq![s[0]] + html_unescaped(s.subrange(1, s.len() as int))
    }
}

/// What opens the code block of a reply.
pub open spec fn reply_open() -> Seq<char> {
    "<pre><code class=\"language-markdown\">"@
}

/// What closes the code block of a reply.
pub open spec fn reply_close() -> Seq<char> {
    "</code></pre>"@
}

/// The reply that carries the text `output`.
pub open spec fn reply_of(output: Seq<char>) -> Seq<char> {
    reply_open() + html_escaped(output) + reply_close()
}

/// `html_escape::encode_text`: the text with every `&`, `<` and `>` replaced
/// by `&amp;`, `&lt;` and `&gt;`, all other characters kept in order, as the
/// crate's source writes it byte by byte.
#[verifier::external_body]
fn encode_text(s: &str) -> (r: String)
    ensures
        r@ == html_escaped(s@),
{
    html_escape::encode_text(s).into_owned()
}

/// The HTML reply that shows `output` verbatim in a Markdown code block.
pub fn reply_html(output: &str) -> (r: String)
    ensures
        r@ == reply_of(output@),
{
    let mut reply = String::from_str("<pre><code class=\"language-markdown\">");
    let body = encode_text(output);
    reply.append(body.as_str());
    reply.append("</code></pre>");
    reply
}

/// The reply to a translation request: its plain rendering, in a code block.
pub fn translation_reply(data: &TranslationData) -> (r: String)
    ensures
        r@ == reply_of(rendered(translation_lines(false, data.deep_view()))),
{
    let output = data.render_plain();
    reply_html(output.as_str())
}

/// The reply to a request that failed, with the failure's description
/// `detail`.
pub fn error_reply(detail: &str) -> (r: String)
    ensures
        r@ == "❌ An error occurred. Please try again later.\n\n"@ + detail@,
{
    let mut reply = String::from_str("❌ An error occurred. Please try again later.\n\n");
    reply.append(detail);
    reply
}

} // verus!
