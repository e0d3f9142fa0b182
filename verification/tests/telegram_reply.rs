use rdict::parse::NotFound;
use rdict::rdict::TranslationData;
use rdict::telegram::{reply_html, translation_reply};

#[test]
fn reply_escapes_markup_characters() {
    assert_eq!(
        reply_html("a > b && a < c"),
        "<pre><code class=\"language-markdown\">a &gt; b &amp;&amp; a &lt; c</code></pre>"
    );
}

#[test]
fn reply_keeps_plain_text() {
    assert_eq!(
        reply_html("# where\n* 在哪里"),
        "<pre><code class=\"language-markdown\"># where\n* 在哪里</code></pre>"
    );
    assert_eq!(
        reply_html(""),
        "<pre><code class=\"language-markdown\"></code></pre>"
    );
}

#[test]
fn translation_reply_uses_plain_rendering() {
    let data = TranslationData::NotFound(NotFound {
        suggestions: vec!["<b>".into()],
    });
    assert_eq!(
        translation_reply(&data),
        "<pre><code class=\"language-markdown\">Did you mean:\n* &lt;b&gt;</code></pre>"
    );
}

#[test]
fn reply_reads_back_as_the_output() {
    let output = "x &lt; y & <a> > &amp;";
    let reply = reply_html(output);
    let open = "<pre><code class=\"language-markdown\">";
    let inner = &reply[open.len()..reply.len() - "</code></pre>".len()];
    assert!(!inner.contains('<') && !inner.contains('>'));
    let mut back = String::new();
    let mut rest = inner;
    while !rest.is_empty() {
        if let Some(r) = rest.strip_prefix("&amp;") {
            back.push('&');
            rest = r;
        } else if let Some(r) = rest.strip_prefix("&lt;") {
            back.push('<');
            rest = r;
        } else if let Some(r) = rest.strip_prefix("&gt;") {
            back.push('>');
            rest = r;
        } else {
            let c = rest.chars().next().unwrap();
            back.push(c);
            rest = &rest[c.len_utf8()..];
        }
    }
    assert_eq!(back, output);
}

#[test]
fn error_reply_carries_the_detail() {
    assert_eq!(
        rdict::telegram::error_reply("timeout"),
        "❌ An error occurred. Please try again later.\n\ntimeout"
    );
}
