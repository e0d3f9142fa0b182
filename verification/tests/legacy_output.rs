use rdict::legacy::{
    output_chinese, output_english, ExampleSentence, Phonetic, ToChinese, ToChineseTranslation,
    ToEnglish,
};

#[test]
fn legacy_chinese_output_has_indented_colored_sections() {
    let result = ToChinese {
        phonetic: Phonetic {
            uk: "həˈləʊ".into(),
            us: String::new(),
        },
        translations: vec![
            ToChineseTranslation {
                english_word_type: "int.".into(),
                chinese_translation: vec!["喂".into(), "你好".into()],
            },
            ToChineseTranslation {
                english_word_type: String::new(),
                chinese_translation: vec!["招呼".into()],
            },
        ],
        example_sentenses: vec![ExampleSentence {
            english_sentence: "Hello!".into(),
            chinese_sentence: "你好！".into(),
        }],
    };
    let expected = "\n  \u{1b}[90m# Phonetics\u{1b}[39m\n  英：[\u{1b}[32mhəˈləʊ\u{1b}[39m]\n\n  \u{1b}[90m# Translations\u{1b}[39m\n  [int.]\n  * \u{1b}[32m喂\u{1b}[39m\n  * \u{1b}[32m你好\u{1b}[39m\n  * \u{1b}[32m招呼\u{1b}[39m\n\n  \u{1b}[90m# Examples\u{1b}[39m\n  * \u{1b}[32mHello!\u{1b}[39m\n    \u{1b}[35m你好！\u{1b}[39m\n\n";
    assert_eq!(output_chinese(&result), expected);
}

#[test]
fn legacy_chinese_output_of_nothing_is_a_blank_line() {
    assert_eq!(output_chinese(&ToChinese::default()), "\n");
}

#[test]
fn legacy_english_output_lists_translations() {
    let result = ToEnglish {
        translations: vec!["hello".into(), "hi".into()],
        example_sentenses: vec![],
    };
    let expected = "\n  \u{1b}[90m# Translations\u{1b}[39m\n  * \u{1b}[32mhello\u{1b}[39m\n  * \u{1b}[32mhi\u{1b}[39m\n\n";
    assert_eq!(output_english(&result), expected);
    assert_eq!(output_english(&ToEnglish::default()), "\n");
}
