use rdict::parse::ja::{self, JapaneseParser};
use rdict::parse::ko::{self, KoreanParser};
use rdict::parse::DictPage;
use rdict::Error;

fn page(html: &str) -> DictPage {
    DictPage::from_document(html).unwrap()
}

const WHERE_JC: &str = r#"<html><body><div class="search_result-dict"><div class="page newjc">
 <div class="word-head"><div class="title">どこ</div>
  <div class="head-content"><span>どこ⓪</span><span class="divider">|</span><span class="tone">doko</span></div>
 </div>
 <div class="pos-line"><div class="word-pos">[代词]</div></div>
 <div class="each-sense">
  <div class="sense-con"><div class="sense-ja">何处，哪里，哪儿。</div></div>
  <div class="sense-con"><div class="sense-ja">どこ</div></div>
  <div class="sense-con"><div class="sense-ja">どこからともなく現れる。也不知从哪儿出现了。</div></div>
 </div>
 <div class="each-sense">
  <div class="sense-con"><div class="sense-ja"> </div></div>
  <div class="sense-con"><div class="sense-ja">哪儿（どういう点）；怎么。</div></div>
 </div>
 <div class="blng_sents_part dict-module"><ul>
  <li class="mcols-layout"><div class="sen-eng">どことどこの国へ行ったことがあるの？</div><div class="sen-ch">你去过哪里和哪个国家?</div></li>
  <li class="mcols-layout"><div class="sen-eng">どこからどこまでが私の責任ですか。</div><div class="sen-ch">从哪里到哪里是我的责任?</div></li>
  <li class="mcols-layout"><div class="sen-eng">コンビニはどこですか。</div><div class="sen-ch">便利店在哪里?</div></li>
 </ul></div>
</div></div></body></html>"#;

const WHERE_CJ: &str = r#"<html><body><div class="search_result-dict"><div class="cj dict-module">
 <div class="word-head"><div class="title">哪里</div></div>
 <div class="cj_data_list"><a class="point">か</a><div class="cj_jmsy">什么时候；几；多少；谁；哪里；什么。接在疑问词或表示疑问的词后表示不确定。</div></div>
 <div class="cj_data_list"><a class="point">何</a><div class="cj_jmsy">哪里，没什么。</div></div>
 <div class="cj_data_list"><a class="point">ない</a><div class="cj_jmsy"></div></div>
 <div class="cj_data_list"><a class="point">どこ</a><div class="cj_jmsy">何处，哪里，哪儿。</div></div>
 <div class="cj_data_list"><a class="point">何が</a><div class="cj_jmsy">何事，哪里，怎么。</div></div>
 <div class="cj_data_list"><a class="point">そんな</a><div class="cj_jmsy">哪里，不会。</div></div>
</div>
 <div class="blng_sents_part dict-module"><ul>
  <li class="mcols-layout"><div class="sen-eng">从哪里到哪里是我的责任?</div><div class="sen-ch">どこからどこまでが私の責任ですか。</div></li>
  <li class="mcols-layout"><div class="sen-eng">谢谢您。—哪里哪里。</div><div class="sen-ch">ありがとうございます。—いやいや。</div></li>
  <li class="mcols-layout"><div class="sen-eng">哪里哪里请多多关照。</div><div class="sen-ch">こちらこそよろしくお願いします。</div></li>
 </ul></div>
</div></body></html>"#;

const WHERE_KC: &str = r#"<html><body><div class="search_result-dict"><div class="kc dict-module">
 <div class="word-head"><div class="title">어디</div></div>
 <ul class="tran-cont">
  <li class="mcols"><span class="kcPos">【代名词】</span><span class="kcKey">1.(指示代词)哪里。哪儿。 2.指难言的什么或什么地方。</span>
   <ul><li class="secondary"><p>어디서 오느냐?</p><p>从何而来？</p></li></ul></li>
  <li class="mcols"><span class="kcPos">【感叹词】</span><span class="kcKey">1.表示强调反问的话。2.表示强调某种意志。</span>
   <ul><li class="secondary"><p>또 어떤 이유가 있는지, 내가 어디 들어 보겠다.</p><p>还有什么理由，我倒是想听一听。</p></li></ul></li>
  <li class="mcols"><span class="kcPos">【名词】</span><span class="kcKey">1. 2.</span></li>
 </ul>
</div></div></body></html>"#;

const WHERE_CK: &str = r#"<html><body><div class="search_result-dict"><div class="ck dict-module">
 <div class="word-head"><div class="title">哪里</div></div>
 <div class="trans-container">
  <ul class="tran-cont"><li class="mcols"><p class="ckKey">어찌하여. 어떻게.</p></li></ul>
  <div class="pos">[代名词]</div>
  <ul class="tran-cont"><li class="mcols"><p class="ckKey">어디；어느 곳</p></li></ul>
  <div class="pos">[词组/表达]</div>
  <ul class="tran-cont"><li class="mcols"><p class="ckKey">별말씀을요；</p><p class="ckKey">천만에요</p></li></ul>
 </div>
</div>
 <div class="blng_sents_part dict-module"><ul>
  <li class="mcols-layout"><div class="sen-eng">在哪里跌倒，就在哪里爬起来。</div><div class="sen-ch">어디서 넘어지든, 넘어진 자리에서 바로 일떠서다[기운차게 일어나다].</div></li>
  <li class="mcols-layout"><div class="sen-eng">在哪里跌倒，就在哪里爬起来。</div><div class="sen-ch">어디서 넘어지든 바로 그 자리에서 일어난다.</div></li>
  <li class="mcols-layout"><div class="sen-eng">哪里有利可图，他就往哪里伸腿。</div><div class="sen-ch">그는 어디 잇속이 있다하면, 바로 거기에 개입한다.</div></li>
 </ul></div>
</div></body></html>"#;

#[test]
fn test_from_japanese() {
    let dp = page(WHERE_JC);
    assert_eq!(
        <DictPage as JapaneseParser>::to_chinese(&dp).unwrap(),
        ja::ToChinese {
            input_text: "どこ".into(),
            pronunciation: Some(ja::Pronunciation {
                kana: "どこ".into(),
                romaji: "doko".into()
            }),
            part_of_speech: Some("代词".into()),
            exam: None,
            meanings: vec![
                "何处，哪里，哪儿。".into(),
                "どこからともなく現れる。也不知从哪儿出现了。".into(),
                "哪儿（どういう点）；怎么。".into(),
            ],
            examples: vec![
                ja::Example {
                    ja: "どことどこの国へ行ったことがあるの？".into(),
                    zh: "你去过哪里和哪个国家?".into(),
                },
                ja::Example {
                    ja: "どこからどこまでが私の責任ですか。".into(),
                    zh: "从哪里到哪里是我的责任?".into(),
                },
                ja::Example {
                    ja: "コンビニはどこですか。".into(),
                    zh: "便利店在哪里?".into(),
                },
            ],
        }
    );
}

#[test]
fn test_to_japanese() {
    let dp = page(WHERE_CJ);
    assert_eq!(
        <DictPage as JapaneseParser>::to_japanese(&dp).unwrap(),
        ja::ToJapanese {
            input_text: "哪里".into(),
            meanings: vec![
                ja::Meaning { point: "か".into(), definition: "什么时候；几；多少；谁；哪里；什么。接在疑问词或表示疑问的词后表示不确定。".into() },
                ja::Meaning { point: "何".into(), definition: "哪里，没什么。".into() },
                ja::Meaning { point: "どこ".into(), definition: "何处，哪里，哪儿。".into() },
                ja::Meaning { point: "何が".into(), definition: "何事，哪里，怎么。".into() },
                ja::Meaning { point: "そんな".into(), definition: "哪里，不会。".into() },
            ],
            examples: vec![
                ja::Example { ja: "どこからどこまでが私の責任ですか。".into(), zh: "从哪里到哪里是我的责任?".into() },
                ja::Example { ja: "ありがとうございます。—いやいや。".into(), zh: "谢谢您。—哪里哪里。".into() },
                ja::Example { ja: "こちらこそよろしくお願いします。".into(), zh: "哪里哪里请多多关照。".into() },
            ],
        }
    );
}

#[test]
fn test_from_korean() {
    let dp = page(WHERE_KC);
    assert_eq!(
        <DictPage as KoreanParser>::to_chinese(&dp).unwrap(),
        ko::ToChinese {
            input_text: "어디".into(),
            meanings: vec![
                ko::Meaning {
                    part_of_speech: Some("代名词".into()),
                    definitions: vec![
                        "(指示代词)哪里。哪儿。".into(),
                        "指难言的什么或什么地方。".into(),
                    ],
                    example: Some(ko::Example {
                        ko: "어디서 오느냐?".into(),
                        zh: "从何而来？".into(),
                    }),
                },
                ko::Meaning {
                    part_of_speech: Some("感叹词".into()),
                    definitions: vec!["表示强调反问的话。".into(), "表示强调某种意志。".into(),],
                    example: Some(ko::Example {
                        ko: "또 어떤 이유가 있는지, 내가 어디 들어 보겠다.".into(),
                        zh: "还有什么理由，我倒是想听一听。".into(),
                    }),
                },
            ],
        }
    );
}

#[test]
fn test_to_korean() {
    let dp = page(WHERE_CK);
    assert_eq!(
        <DictPage as KoreanParser>::to_korean(&dp).unwrap(),
        ko::ToKorean {
            input_text: "哪里".into(),
            meanings: vec![
                ko::Meaning {
                    part_of_speech: None,
                    definitions: vec!["어찌하여. 어떻게.".into()],
                    example: None,
                },
                ko::Meaning {
                    part_of_speech: Some("代名词".into()),
                    definitions: vec!["어디".into(), "어느 곳".into()],
                    example: None,
                },
                ko::Meaning {
                    part_of_speech: Some("词组/表达".into()),
                    definitions: vec!["별말씀을요".into(), "천만에요".into()],
                    example: None,
                },
            ],
            examples: vec![
                ko::Example {
                    ko: "어디서 넘어지든, 넘어진 자리에서 바로 일떠서다[기운차게 일어나다]."
                        .into(),
                    zh: "在哪里跌倒，就在哪里爬起来。".into(),
                },
                ko::Example {
                    ko: "어디서 넘어지든 바로 그 자리에서 일어난다.".into(),
                    zh: "在哪里跌倒，就在哪里爬起来。".into(),
                },
                ko::Example {
                    ko: "그는 어디 잇속이 있다하면, 바로 거기에 개입한다.".into(),
                    zh: "哪里有利可图，他就往哪里伸腿。".into(),
                },
            ],
        }
    );
}

#[test]
fn asian_parsers_refuse_an_empty_page() {
    let dp = page(r#"<div class="search_result-dict"><p>none</p></div>"#);
    assert_eq!(
        <DictPage as JapaneseParser>::to_chinese(&dp),
        Err(Error::NoTranslationResults)
    );
    assert_eq!(
        <DictPage as JapaneseParser>::to_japanese(&dp),
        Err(Error::NoTranslationResults)
    );
    assert_eq!(
        <DictPage as KoreanParser>::to_chinese(&dp),
        Err(Error::NoTranslationResults)
    );
    assert_eq!(
        <DictPage as KoreanParser>::to_korean(&dp),
        Err(Error::NoTranslationResults)
    );
}

#[test]
fn korean_numbered_definitions_drop_digits_and_dots() {
    let html = r#"<div class="search_result-dict"><ul class="tran-cont"><li class="mcols">
        <span class="kcKey">1..가 10.나 3.</span></li></ul></div>"#;
    let r = <DictPage as KoreanParser>::to_chinese(&page(html)).unwrap();
    // `0` is no separator: "10" splits at the `1` only.
    assert_eq!(
        r.meanings,
        vec![ko::Meaning {
            part_of_speech: None,
            definitions: vec!["가".into(), "0.나".into()],
            example: None,
        }]
    );
}

#[test]
fn japanese_reading_needs_both_kana_and_romaji() {
    let html = r#"<div class="search_result-dict"><div class="word-head"><div class="title">x</div>
        <div class="head-content"><span>①②</span><span class="tone">a</span></div></div>
        <div class="each-sense"><div class="sense-con"><div class="sense-ja">y</div></div></div>
        <div class="label">N5</div></div>"#;
    let r = <DictPage as JapaneseParser>::to_chinese(&page(html)).unwrap();
    assert_eq!(r.pronunciation, None);
    assert_eq!(r.exam, Some("N5".into()));
    assert_eq!(r.meanings, vec!["y".to_string()]);
    assert_eq!(r.part_of_speech, None);
}
