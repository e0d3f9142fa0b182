use rdict::parse::en::{self, EnglishParser, Meaning, Pronunciation};
use rdict::parse::fr::{self, FrenchParser};
use rdict::parse::DictPage;
use rdict::Error;

fn page(html: &str) -> DictPage {
    DictPage::from_document(html).unwrap()
}

const WHERE_EC: &str = r#"<!DOCTYPE html><html><head><title>where</title></head><body>
<div class="search_result-dict">
 <div class="ec dict-module">
  <div class="word-head"><div class="title">where<span class="add">+</span></div></div>
  <div class="phone_con">
   <div class="per-phone"><span>英</span><span class="phonetic">/weə(r)/</span></div>
   <div class="per-phone"><span>美</span><span class="phonetic">/wer/</span></div>
  </div>
  <div class="trans-container"><ul class="basic">
   <li class="word-exp"><span class="pos">adv.</span><span class="trans">在哪里</span></li>
   <li class="word-exp"><span class="pos">pron.</span><span class="trans">哪里</span></li>
   <li class="word-exp"><span class="pos">conj.</span><span class="trans">在……的地方</span></li>
   <li class="word-exp"><span class="pos">n.</span><span class="trans"> 地点 </span></li>
   <li class="word-exp"><span class="pos">v.</span></li>
  </ul></div>
  <div class="exam_type">
   <span class="exam_type-value">初中</span><span class="exam_type-value">高中</span>
   <span class="exam_type-value">CET4</span><span class="exam_type-value">CET6</span>
   <span class="exam_type-value"> </span><span class="exam_type-value">考研</span>
  </div>
 </div>
 <div class="blng_sents_part dict-module"><ul>
  <li class="mcols-layout"><div class="col2"><div class="sen-eng">Where were you yesterday morning?</div><div class="sen-ch">你昨天上午在哪儿？</div></div></li>
  <li class="mcols-layout"><div class="col2"><div class="sen-eng">Where were you at uni ?</div><div class="sen-ch">你在哪儿上的大学？</div></div></li>
  <li class="mcols-layout"><div class="col2"><div class="sen-eng">Unpaired sentence.</div></div></li>
  <li class="mcols-layout"><div class="col2"><div class="sen-eng">This is where I live.</div><div class="sen-ch">这是我住的地方。</div></div></li>
 </ul></div>
</div></body></html>"#;

const WHERE_CE: &str = r#"<html><body><div class="search_result-dict">
 <div class="ce dict-module">
  <div class="word-head"><div class="title">哪里</div></div>
  <div class="trans-container"><ul class="basic">
   <li class="mcols"><div class="col2"><a class="point">where</a></div></li>
   <li class="mcols"><div class="col2"><a class="point"> </a></div></li>
   <li class="mcols"><div class="col2"><a class="point">wherever</a></div></li>
  </ul></div>
 </div>
 <div class="blng_sents_part dict-module"><ul>
  <li class="mcols-layout"><div class="sen-eng">我现在想住哪里就住哪里。</div><div class="sen-ch">I'm free now to live wherever I please.</div></li>
  <li class="mcols-layout"><div class="sen-eng">你去哪里，女士？</div><div class="sen-ch">Where you want to go, Señorita?</div></li>
  <li class="mcols-layout"><div class="sen-eng">没有人命令他从哪里来回哪里去。</div><div class="sen-ch">No one ordered him back whence he came.</div></li>
 </ul></div>
</div></body></html>"#;

const WHERE_FC: &str = r#"<html><body><div class="search_result-dict">
 <div class="fc dict-module">
  <h4>où<span class="more">…</span></h4>
  <div class="phone_con"><span class="phonetic">/u/</span></div>
  <p class="pos">在那里，在那个地方；在哪儿，去哪里</p>
  <p class="pos">  </p>
  <p class="pos">在…地方，去…地方； 在…状态；</p>
 </div>
 <div class="blng_sents_part dict-module"><ul>
  <li class="mcols-layout"><div class="sen-eng">Où sont ses livres et journaux.</div><div class="sen-ch">他的书和报纸在哪儿？</div></li>
  <li class="mcols-layout"><div class="sen-eng">Où est la bibliothèque?</div><div class="sen-ch">图书馆在哪儿？</div></li>
  <li class="mcols-layout"><div class="sen-eng">Où?a? je ne vois rien.</div><div class="sen-ch">在哪啊？我什么都没看到。</div></li>
 </ul></div>
</div></body></html>"#;

const WHERE_CF: &str = r#"<html><body><div class="search_result-dict">
 <div class="cf dict-module">
  <h4>哪里</h4>
  <ul><li class="each-word"><a class="point">où</a></li></ul>
 </div>
 <div class="blng_sents_part dict-module"><ul>
  <li class="mcols-layout"><div class="sen-eng">请问地铁车站在哪里？</div><div class="sen-ch">Ou est la station de metro?</div></li>
  <li class="mcols-layout"><div class="sen-eng">您出生的省份在哪里？</div><div class="sen-ch">Où se trouve votre province?</div></li>
  <li class="mcols-layout"><div class="sen-eng">哪里是我过去的本能？</div><div class="sen-ch">Où est passé mon instinct?</div></li>
 </ul></div>
</div></body></html>"#;

#[test]
fn test_from_english() {
    let dp = page(WHERE_EC);
    assert_eq!(
        <DictPage as EnglishParser>::to_chinese(&dp).unwrap(),
        en::ToChinese {
            input_text: "where".into(),
            pronunciation: Pronunciation {
                uk: Some("weə(r)".into()),
                us: Some("wer".into()),
            },
            meanings: vec![
                Meaning {
                    part_of_speech: Some("adv.".into()),
                    definitions: vec!["在哪里".into()],
                },
                Meaning {
                    part_of_speech: Some("pron.".into()),
                    definitions: vec!["哪里".into()],
                },
                Meaning {
                    part_of_speech: Some("conj.".into()),
                    definitions: vec!["在……的地方".into()],
                },
                Meaning {
                    part_of_speech: Some("n.".into()),
                    definitions: vec!["地点".into()],
                },
            ],
            examples: vec![
                en::Example {
                    en: "Where were you yesterday morning?".into(),
                    zh: "你昨天上午在哪儿？".into(),
                },
                en::Example {
                    en: "Where were you at uni ?".into(),
                    zh: "你在哪儿上的大学？".into(),
                },
                en::Example {
                    en: "This is where I live.".into(),
                    zh: "这是我住的地方。".into(),
                },
            ],
            exams: vec![
                "初中".into(),
                "高中".into(),
                "CET4".into(),
                "CET6".into(),
                "考研".into()
            ],
        }
    );
}

#[test]
fn test_to_english() {
    let dp = page(WHERE_CE);
    assert_eq!(
        <DictPage as EnglishParser>::to_english(&dp).unwrap(),
        en::ToEnglish {
            input_text: "哪里".into(),
            meanings: vec!["where".into(), "wherever".into()],
            examples: vec![
                en::Example {
                    en: "I'm free now to live wherever I please.".into(),
                    zh: "我现在想住哪里就住哪里。".into(),
                },
                en::Example {
                    en: "Where you want to go, Señorita?".into(),
                    zh: "你去哪里，女士？".into(),
                },
                en::Example {
                    en: "No one ordered him back whence he came.".into(),
                    zh: "没有人命令他从哪里来回哪里去。".into(),
                },
            ],
        }
    );
}

#[test]
fn test_from_french() {
    let dp = page(WHERE_FC);
    assert_eq!(
        <DictPage as FrenchParser>::to_chinese(&dp).unwrap(),
        fr::ToChinese {
            input_text: "où".into(),
            pronunciation: Some("u".into()),
            meanings: vec![
                "在那里，在那个地方".into(),
                "在哪儿，去哪里".into(),
                "在…地方，去…地方".into(),
                "在…状态".into(),
            ],
            examples: vec![
                fr::Example {
                    fr: "Où sont ses livres et journaux.".into(),
                    zh: "他的书和报纸在哪儿？".into(),
                },
                fr::Example {
                    fr: "Où est la bibliothèque?".into(),
                    zh: "图书馆在哪儿？".into(),
                },
                fr::Example {
                    fr: "Où?a? je ne vois rien.".into(),
                    zh: "在哪啊？我什么都没看到。".into(),
                },
            ],
        }
    );
}

#[test]
fn test_to_french() {
    let dp = page(WHERE_CF);
    assert_eq!(
        <DictPage as FrenchParser>::to_french(&dp).unwrap(),
        fr::ToFrench {
            input_text: "哪里".into(),
            meanings: vec!["où".into()],
            examples: vec![
                fr::Example {
                    fr: "Ou est la station de metro?".into(),
                    zh: "请问地铁车站在哪里？".into(),
                },
                fr::Example {
                    fr: "Où se trouve votre province?".into(),
                    zh: "您出生的省份在哪里？".into(),
                },
                fr::Example {
                    fr: "Où est passé mon instinct?".into(),
                    zh: "哪里是我过去的本能？".into(),
                },
            ],
        }
    );
}

const EMPTY_PAGE: &str = r#"<html><body><div class="search_result-dict"><div class="other">nothing</div></div></body></html>"#;

#[test]
fn english_parsers_refuse_an_empty_page() {
    let dp = page(EMPTY_PAGE);
    assert_eq!(
        <DictPage as EnglishParser>::to_chinese(&dp),
        Err(Error::NoTranslationResults)
    );
    assert_eq!(
        <DictPage as EnglishParser>::to_english(&dp),
        Err(Error::NoTranslationResults)
    );
    assert_eq!(
        <DictPage as FrenchParser>::to_chinese(&dp),
        Err(Error::NoTranslationResults)
    );
    assert_eq!(
        <DictPage as FrenchParser>::to_french(&dp),
        Err(Error::NoTranslationResults)
    );
}

#[test]
fn english_page_with_pronunciation_only_is_a_translation() {
    let html = r#"<html><body><div class="search_result-dict"><div class="ec dict-module">
        <div class="word-head"><div class="title">hm</div></div>
        <div class="phone_con"><div class="per-phone"><span class="phonetic">/ /</span></div>
        <div class="per-phone"><span class="phonetic">/hm/</span></div></div>
        </div></div></body></html>"#;
    let r = <DictPage as EnglishParser>::to_chinese(&page(html)).unwrap();
    assert_eq!(r.pronunciation.uk, None);
    assert_eq!(r.pronunciation.us, Some("hm".into()));
    assert!(r.meanings.is_empty());
    assert!(r.exams.is_empty());
}

#[test]
fn english_definitions_keep_empty_pieces() {
    // A trailing separator gives an empty definition, as `str::split` does.
    let html = r#"<html><body><div class="search_result-dict"><div class="ec dict-module">
        <div class="trans-container"><ul class="basic">
        <li class="word-exp"><span class="trans">一；二；</span></li></ul></div>
        </div></div></body></html>"#;
    let r = <DictPage as EnglishParser>::to_chinese(&page(html)).unwrap();
    assert_eq!(
        r.meanings,
        vec![Meaning {
            part_of_speech: None,
            definitions: vec!["一".into(), "二".into(), "".into()],
        }]
    );
    assert_eq!(r.input_text, "");
}
