use rdict::legacy;
use rdict::parse::en::{self, Meaning, Pronunciation};
use rdict::parse::{fr, ja, ko, DictPage, NotFound};
use rdict::rdict::{translate_for_script, TranslationData};
use rdict::render::Render;
use rdict::Error;

#[test]
fn not_found_renders_plain_and_colored() {
    let nf = NotFound {
        suggestions: vec!["where".into(), "whereas".into()],
    };
    assert_eq!(nf.render_plain(), "Did you mean:\n* where\n* whereas");
    assert_eq!(
        nf.render_colored(),
        "\u{1b}[90mDid you mean:\u{1b}[0m\n* \u{1b}[32mwhere\u{1b}[0m\n* \u{1b}[32mwhereas\u{1b}[0m"
    );
}

fn sample_from_english() -> en::ToChinese {
    en::ToChinese {
        input_text: "where".into(),
        pronunciation: Pronunciation {
            uk: Some("weə(r)".into()),
            us: None,
        },
        meanings: vec![
            Meaning {
                part_of_speech: Some("adv.".into()),
                definitions: vec!["在哪里".into(), "到哪里".into()],
            },
            Meaning {
                part_of_speech: None,
                definitions: vec!["地点".into()],
            },
        ],
        examples: vec![en::Example {
            en: "Where is it?".into(),
            zh: "它在哪里？".into(),
        }],
        exams: vec!["CET4".into()],
    }
}

#[test]
fn english_to_chinese_renders_plain() {
    assert_eq!(
        sample_from_english().render_plain(),
        "where\n\n# Pronunciation\n英：[weə(r)]\n\n# Meanings\n[adv.]\n* 在哪里\n* 到哪里\n\n* 地点\n\n# Examples\n* Where is it?\n  它在哪里？"
    );
}

#[test]
fn english_to_chinese_renders_colored() {
    let g = |s: &str| format!("\u{1b}[32m{s}\u{1b}[0m");
    let m = |s: &str| format!("\u{1b}[35m{s}\u{1b}[0m");
    let h = |s: &str| format!("\u{1b}[90m{s}\u{1b}[0m");
    let expected = format!(
        "\u{1b}[1mwhere\u{1b}[0m\n\n{}\n英：[{}]\n\n{}\n[adv.]\n* {}\n* {}\n\n* {}\n\n{}\n* {}\n  {}",
        h("# Pronunciation"),
        g("weə(r)"),
        h("# Meanings"),
        g("在哪里"),
        g("到哪里"),
        g("地点"),
        h("# Examples"),
        g("Where is it?"),
        m("它在哪里？"),
    );
    assert_eq!(sample_from_english().render_colored(), expected);
}

#[test]
fn rendering_drops_trailing_whitespace_of_the_last_line() {
    let te = en::ToEnglish {
        input_text: "空".into(),
        meanings: vec!["void  ".into()],
        examples: vec![],
    };
    assert_eq!(te.render_plain(), "空\n\n# Meanings\n* void");
}

#[test]
fn french_renders_without_header() {
    let tc = fr::ToChinese {
        input_text: "où".into(),
        pronunciation: Some("u".into()),
        meanings: vec!["在哪儿".into()],
        examples: vec![],
    };
    assert_eq!(tc.render_plain(), "# Pronunciation\n[u]\n\n# Meanings\n* 在哪儿");
    let tf = fr::ToFrench {
        input_text: "哪里".into(),
        meanings: vec![],
        examples: vec![fr::Example {
            fr: "Où?".into(),
            zh: "哪里？".into(),
        }],
    };
    assert_eq!(tf.render_plain(), "# Examples\n* Où?\n  哪里？");
}

#[test]
fn japanese_part_of_speech_is_bracketed_only_in_color() {
    let tc = ja::ToChinese {
        input_text: "どこ".into(),
        pronunciation: Some(ja::Pronunciation {
            kana: "どこ".into(),
            romaji: "doko".into(),
        }),
        meanings: vec!["哪里".into()],
        part_of_speech: Some("代词".into()),
        exam: Some("N5".into()),
        examples: vec![],
    };
    assert_eq!(
        tc.render_plain(),
        "どこ\n\n# Pronunciation\n[どこ | doko]\n\n# Meanings\n代词\n* 哪里\n\n# Exam\nN5"
    );
    assert!(tc.render_colored().contains("\n[代词]\n"));
    let tj = ja::ToJapanese {
        input_text: "哪里".into(),
        meanings: vec![
            ja::Meaning {
                point: "どこ".into(),
                definition: "何处".into(),
            },
            ja::Meaning {
                point: "".into(),
                definition: "哪里，不会。".into(),
            },
        ],
        examples: vec![],
    };
    assert_eq!(
        tj.render_plain(),
        "哪里\n\n# Meanings\n[どこ] 何处\n哪里，不会。"
    );
}

#[test]
fn korean_renders_meaning_examples_only_from_korean() {
    let meaning = ko::Meaning {
        part_of_speech: Some("代名词".into()),
        definitions: vec!["哪里".into()],
        example: Some(ko::Example {
            ko: "어디?".into(),
            zh: "哪里？".into(),
        }),
    };
    let kc = ko::ToChinese {
        input_text: "어디".into(),
        meanings: vec![meaning.clone()],
    };
    assert_eq!(
        kc.render_plain(),
        "# Meanings\n[代名词]\n* 哪里\n  어디?\n  哪里？"
    );
    let ck = ko::ToKorean {
        input_text: "哪里".into(),
        meanings: vec![meaning],
        examples: vec![ko::Example {
            ko: "어디".into(),
            zh: "哪里".into(),
        }],
    };
    assert_eq!(
        ck.render_plain(),
        "# Meanings\n[代名词]\n* 哪里\n\n# Examples\n* 어디\n  哪里"
    );
}

#[test]
fn translation_data_renders_its_variant() {
    let data = TranslationData::NotFound(NotFound {
        suggestions: vec!["a".into()],
    });
    assert_eq!(data.render_plain(), "Did you mean:\n* a");
    let data = TranslationData::FromEnglish(sample_from_english());
    assert_eq!(data.render_plain(), sample_from_english().render_plain());
    assert_eq!(data.render_colored(), sample_from_english().render_colored());
}

#[test]
fn plain_rendering_has_no_escape() {
    let data = TranslationData::FromEnglish(sample_from_english());
    assert!(!data.render_plain().contains('\u{1b}'));
    assert!(data.render_colored().contains('\u{1b}'));
}

const EC_PAGE: &str = r#"<html><body><div class="search_result-dict"><div class="ec dict-module">
 <div class="word-head"><div class="title">hello</div></div>
 <div class="trans-container"><ul class="basic"><li class="word-exp"><span class="pos">int.</span><span class="trans">喂；你好</span></li></ul></div>
</div></div></body></html>"#;

#[test]
fn parse_translation_reads_the_module_it_finds() {
    let parsed = |html: &str| DictPage::from_document(html).unwrap().parse_translation();
    match parsed(EC_PAGE).unwrap() {
        TranslationData::FromEnglish(tc) => {
            assert_eq!(tc.input_text, "hello");
            assert_eq!(
                tc.meanings,
                vec![Meaning {
                    part_of_speech: Some("int.".into()),
                    definitions: vec!["喂".into(), "你好".into()],
                }]
            );
        }
        other => panic!("unexpected {other:?}"),
    }
    let jc = r#"<div class="search_result-dict"><div class="page newjc">
        <div class="each-sense"><div class="sense-con"><div class="sense-ja">哪里</div></div></div></div></div>"#;
    assert!(matches!(parsed(jc), Ok(TranslationData::FromJapanese(_))));
    let ck = r#"<div class="search_result-dict"><div class="ck dict-module"><div class="trans-container">
        <ul class="tran-cont"><li class="mcols"><p class="ckKey">어디</p></li></ul></div></div></div>"#;
    assert!(matches!(parsed(ck), Ok(TranslationData::ToKorean(_))));
}

#[test]
fn script_page_falls_back_to_suggestions() {
    let html = r#"<div class="search_result-dict"><div class="ec dict-module"></div>
        <div class="maybe"><div class="maybe_word"><a class="point">hello</a></div>
        <div class="maybe_word"><a class="point">help</a></div></div></div>"#;
    assert_eq!(
        translate_for_script(html, false),
        Ok(TranslationData::NotFound(NotFound {
            suggestions: vec!["hello".into(), "help".into()]
        }))
    );
    let page = DictPage::from_document(html).unwrap();
    assert_eq!(
        page.parse_translation(),
        Err(Error::NoTranslationResults)
    );
}

#[test]
fn script_page_reads_by_the_script_of_the_text() {
    match translate_for_script(EC_PAGE, false).unwrap() {
        TranslationData::FromEnglish(tc) => assert_eq!(tc.input_text, "hello"),
        other => panic!("unexpected {other:?}"),
    }
    assert_eq!(translate_for_script(EC_PAGE, true), Err(Error::NoTranslationResults));
}

#[test]
fn script_page_errors() {
    assert_eq!(
        translate_for_script("<html><body><p>captcha</p></body></html>", true),
        Err(Error::Parse("no .search_result-dict found".into()))
    );
    assert_eq!(
        translate_for_script(r#"<div class="search_result-dict"></div>"#, false),
        Err(Error::NoTranslationResults)
    );
}

#[test]
fn page_child_text_is_the_direct_text_only() {
    let page = DictPage::from_document(
        r#"<div class="search_result-dict"><h4> one <b>two</b> three </h4></div>"#,
    )
    .unwrap();
    assert_eq!(page.child_text("h4"), "one  three");
    assert_eq!(page.child_text("h5"), "");
    assert_eq!(rdict::parse::inner_text(page.content()), "one two three");
}

const LEGACY_EC: &str = r#"<html><body>
 <div class="phone_con"><div class="per-phone"><span class="phonetic">/həˈləʊ/</span></div>
 <div class="per-phone"><span class="phonetic">/həˈloʊ/</span></div></div>
 <div class="trans-container"><ul class="basic">
  <li class="word-exp"><span class="pos">int.</span><span class="trans">喂；你好</span></li>
  <li class="word-exp"><span class="pos">n.</span></li>
  <li class="word-exp"></li>
 </ul>
 <ul class="mcols-layout"><li class="col2"><p class="sen-eng">Hello!</p><p class="sen-ch">你好！</p></li>
 <li class="col2"><p class="sen-eng">Hi</p></li></ul>
 </div></body></html>"#;

#[test]
fn legacy_to_chinese_reads_the_whole_document() {
    let r = legacy::to_chinese(LEGACY_EC).unwrap();
    assert_eq!(
        r,
        legacy::ToChinese {
            phonetic: legacy::Phonetic {
                uk: "həˈləʊ".into(),
                us: "həˈloʊ".into(),
            },
            translations: vec![
                legacy::ToChineseTranslation {
                    english_word_type: "int.".into(),
                    chinese_translation: vec!["喂".into(), "你好".into()],
                },
                legacy::ToChineseTranslation {
                    english_word_type: "n.".into(),
                    chinese_translation: vec![],
                },
            ],
            example_sentenses: vec![
                legacy::ExampleSentence {
                    english_sentence: "Hello!".into(),
                    chinese_sentence: "你好！".into(),
                },
                legacy::ExampleSentence {
                    english_sentence: "Hi".into(),
                    chinese_sentence: "".into(),
                },
            ],
        }
    );
    assert_eq!(
        legacy::to_chinese("<p>none</p>"),
        Err(Error::NoTranslationResults)
    );
}

#[test]
fn legacy_to_english_keeps_nonempty_points() {
    let html = r#"<div class="trans-container"><ul class="basic"><li><div class="col2">
        <a class="point">where</a><a class="point"></a></div></li></ul></div>"#;
    let r = legacy::to_english(html).unwrap();
    assert_eq!(r.translations, vec!["where".to_string()]);
    assert!(r.example_sentenses.is_empty());
    assert_eq!(
        legacy::to_english("<p>none</p>"),
        Err(Error::NoTranslationResults)
    );
}

#[test]
fn legacy_translate_follows_the_script_of_the_word() {
    assert_eq!(legacy::table("你好"), "to_english_results");
    assert_eq!(legacy::table("hello"), "to_chinese_results");
    let page = r#"<html><body><div class="trans-container"><div class="basic"><div class="col2"><a class="point">hello</a></div></div></div></body></html>"#;
    match legacy::translate("你好", page) {
        Ok(legacy::Data::ToEnglish(te)) => assert_eq!(te.translations, vec!["hello".to_string()]),
        other => panic!("unexpected {other:?}"),
    }
    assert_eq!(legacy::translate("hello", page), Err(Error::NoTranslationResults));
}

fn without_escape_sequences(s: &str) -> String {
    let mut out = String::new();
    let mut inside = false;
    for c in s.chars() {
        if inside {
            inside = c != 'm';
        } else if c == '\u{1b}' {
            inside = true;
        } else {
            out.push(c);
        }
    }
    out
}

#[test]
fn colored_rendering_is_plain_with_styling() {
    let data = TranslationData::FromEnglish(sample_from_english());
    assert_eq!(without_escape_sequences(&data.render_colored()), data.render_plain());
    let nf = TranslationData::NotFound(NotFound {
        suggestions: vec!["where".into(), "whereas".into()],
    });
    assert_eq!(without_escape_sequences(&nf.render_colored()), nf.render_plain());
}
