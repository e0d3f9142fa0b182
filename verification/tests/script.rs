use rdict::legacy::contains_cjk;
use rdict::model::{CliLanguage, Language, Script, Voice};
use rdict::Error;

#[test]
fn test_script_classify_chinese() {
    assert_eq!(
        Script::classify("你好").unwrap(),
        Script::Chinese("你好".to_owned())
    );
}

#[test]
fn test_script_classify_english() {
    assert_eq!(
        Script::classify("hello").unwrap(),
        Script::English("hello".to_owned())
    );
}

#[test]
fn test_script_classify_mixed() {
    assert_eq!(
        Script::classify("hello你好").unwrap(),
        Script::Chinese("hello你好".to_owned())
    );
}

#[test]
fn test_script_classify_empty() {
    Script::classify("").unwrap_err();
}

#[test]
fn test_script_text() {
    assert_eq!(Script::classify("hello").unwrap().text(), "hello");
    assert_eq!(Script::classify("你好").unwrap().text(), "你好");
}

#[test]
fn script_classify_empty_is_empty_input() {
    assert_eq!(Script::classify(""), Err(Error::EmptyInput));
}

#[test]
fn script_cache_tables() {
    assert_eq!(
        Script::classify("你好").unwrap().cache_table(),
        "to_english_results"
    );
    assert_eq!(
        Script::classify("hello").unwrap().cache_table(),
        "to_chinese_results"
    );
}

#[test]
fn script_classify_edges_of_the_cjk_block() {
    // U+4E00 and U+9FFF are the first and last CJK unified ideographs.
    assert!(matches!(Script::classify("\u{4E00}"), Ok(Script::Chinese(_))));
    assert!(matches!(Script::classify("\u{9FFF}"), Ok(Script::Chinese(_))));
    assert!(matches!(Script::classify("\u{4DFF}"), Ok(Script::English(_))));
    assert!(matches!(Script::classify("\u{A000}"), Ok(Script::English(_))));
    // Kana is not in the block.
    assert!(matches!(Script::classify("どこ"), Ok(Script::English(_))));
}

#[test]
fn test_contains_cjk_with_cjk() {
    assert!(contains_cjk("你好"));
}

#[test]
fn test_contains_cjk_without_cjk() {
    assert!(!contains_cjk("hello"));
}

#[test]
fn test_contains_cjk_mixed_input() {
    assert!(contains_cjk("hello你好"));
}

#[test]
fn test_contains_cjk_empty() {
    assert!(!contains_cjk(""));
}

#[test]
fn language_codes_and_names() {
    assert_eq!(Language::English.code(), "en");
    assert_eq!(Language::French.code(), "fr");
    assert_eq!(Language::Korean.code(), "ko");
    assert_eq!(Language::Japanese.code(), "ja");
    assert_eq!(Language::Japanese.name(), "Japanese");
    assert_eq!(Language::default(), Language::English);
}

#[test]
fn cli_language_converts() {
    assert_eq!(Language::from(CliLanguage::Korean), Language::Korean);
    assert_eq!(Language::from(CliLanguage::Japanese), Language::Japanese);
    assert_eq!(Language::from(CliLanguage::French), Language::French);
    assert_eq!(Language::from(CliLanguage::English), Language::English);
}

#[test]
fn voice_english_url() {
    let v = Voice::english("英", "hello world", "1");
    assert_eq!(v.label, "英");
    assert_eq!(
        v.url,
        "https://dict.youdao.com/dictvoice?audio=hello+world&type=1"
    );
}

#[test]
fn voice_language_url_encodes_utf8() {
    let v = Voice::language("发音", "où", "fr");
    assert_eq!(
        v.url,
        "https://dict.youdao.com/dictvoice?audio=o%C3%B9&le=fr"
    );
    let w = Voice::language("x", "a&b=c*-._~", "ko");
    assert_eq!(
        w.url,
        "https://dict.youdao.com/dictvoice?audio=a%26b%3Dc*-._%7E&le=ko"
    );
}

#[test]
fn result_page_url_encodes_the_word() {
    assert_eq!(
        rdict::model::result_page_url("https://m.youdao.com", "hello"),
        "https://m.youdao.com/result?word=hello&lang=en"
    );
    assert_eq!(
        rdict::model::result_page_url("http://127.0.0.1:1234", "a b&c你"),
        "http://127.0.0.1:1234/result?word=a+b%26c%E4%BD%A0&lang=en"
    );
}

#[test]
fn voice_query_reads_back_as_its_pairs() {
    let v = rdict::model::Voice::english("英", "a b&c=d+你%", "1");
    let url = url::Url::parse(&v.url).unwrap();
    let pairs: Vec<(String, String)> = url.query_pairs().into_owned().collect();
    assert_eq!(
        pairs,
        vec![
            ("audio".to_string(), "a b&c=d+你%".to_string()),
            ("type".to_string(), "1".to_string())
        ]
    );
}

#[test]
fn language_codes_are_distinct_and_default_is_english() {
    let all = [
        rdict::model::Language::English,
        rdict::model::Language::French,
        rdict::model::Language::Korean,
        rdict::model::Language::Japanese,
    ];
    for a in all {
        for b in all {
            assert_eq!(a == b, a.code() == b.code());
        }
    }
    assert_eq!(rdict::model::Language::default().code(), "en");
}
