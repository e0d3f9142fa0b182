use rdict::cli::{
    ansi_supported, choose_format, indent, join_words, lines_of, needs_pager, piped_text,
    result_output, screen_output, source_of, Format, Source,
};
use rdict::parse::en::ToEnglish;
use rdict::rdict::{FetchedResult, TranslationData};

#[test]
fn lines_follow_str_lines() {
    for s in ["", "a", "a\n", "a\nb", "a\r\nb\r\n", "a\n\nb", "\n", "x\r", "a\rb\nc"] {
        let want: Vec<String> = s.lines().map(|l| l.to_string()).collect();
        assert_eq!(lines_of(s), want, "lines of {s:?}");
    }
}

#[test]
fn indent_prefixes_every_line() {
    assert_eq!(indent("# hello\n\n* 你好"), "  # hello\n  \n  * 你好");
    assert_eq!(indent(""), "");
    assert_eq!(indent("one\r\ntwo\n"), "  one\n  two");
}

#[test]
fn screen_output_without_cache_note() {
    assert_eq!(screen_output("a\nb", false, "word"), "\n  a\n  b\n");
}

#[test]
fn screen_output_with_cache_note() {
    assert_eq!(
        screen_output("a", true, "word"),
        "\n  a\n\n  \u{1b}[90m[ word ] From cache\u{1b}[39m\n"
    );
}

#[test]
fn result_output_renders_and_indents() {
    let result = FetchedResult {
        data: TranslationData::ToEnglish(ToEnglish {
            input_text: "哪里".into(),
            meanings: vec!["where".into()],
            examples: vec![],
        }),
        is_cached: false,
    };
    assert_eq!(
        result_output(&result, false, "哪里"),
        "\n  哪里\n  \n  # Meanings\n  * where\n"
    );
    assert_eq!(
        result_output(&result, true, "哪里"),
        "\n  \u{1b}[1m哪里\u{1b}[0m\n  \n  \u{1b}[90m# Meanings\u{1b}[0m\n  * \u{1b}[32mwhere\u{1b}[0m\n"
    );
}

#[test]
fn pager_when_the_lines_outnumber_the_rows_left() {
    let text = "\n  a\n  b\n  c\n";
    assert_eq!(lines_of(text).len(), 4);
    assert!(needs_pager(7, text));
    assert!(!needs_pager(8, text));
    assert!(!needs_pager(4, ""));
    assert!(needs_pager(4, "x"));
}

#[test]
fn test_cmd_stdin_empty() {
    assert_eq!(source_of(&vec![], true), Source::Pipe);
    assert_eq!(piped_text(""), None);
    assert_eq!(piped_text("  \n"), None);
}

#[test]
fn ansi_support_follows_no_color_and_term() {
    assert!(ansi_supported(false, &Some("xterm-256color".into())));
    assert!(!ansi_supported(false, &Some("dumb".into())));
    assert!(!ansi_supported(false, &None));
    assert!(!ansi_supported(true, &Some("xterm".into())));
}

#[test]
fn format_prefers_json_then_colors() {
    assert_eq!(choose_format(true, true), Format::Json);
    assert_eq!(choose_format(true, false), Format::Json);
    assert_eq!(choose_format(false, true), Format::MarkdownColored);
    assert_eq!(choose_format(false, false), Format::Markdown);
}

#[test]
fn source_prefers_arguments_then_pipe() {
    let words: Vec<String> = vec!["good".into(), "morning".into()];
    assert_eq!(source_of(&words, true), Source::Arguments("good morning".into()));
    assert_eq!(source_of(&vec![], true), Source::Pipe);
    assert_eq!(source_of(&vec![], false), Source::Interactive);
    assert_eq!(join_words(&vec!["你好".into()]), "你好");
    assert_eq!(join_words(&vec![]), "");
}

#[test]
fn piped_text_is_trimmed_and_nonempty() {
    assert_eq!(piped_text("  hello world \n"), Some("hello world".to_string()));
    assert_eq!(piped_text(" \n\t"), None);
    assert_eq!(piped_text(""), None);
}
