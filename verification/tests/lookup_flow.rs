use rdict::lookup::{Action, CacheRead, Lookup};
use rdict::parse::en::{Example, Meaning, Pronunciation, ToChinese};
use rdict::rdict::{FetchedResult, TranslationData};

const HELLO_PAGE: &str = r#"<!DOCTYPE html><html><head><title>hello</title></head><body>
<div class="search_result-dict">
 <div class="ec dict-module">
  <div class="word-head"><div class="title">hello</div></div>
  <div class="phone_con">
   <div class="per-phone"><span>英</span><span class="phonetic">/həˈləʊ/</span></div>
   <div class="per-phone"><span>美</span><span class="phonetic">/həˈloʊ/</span></div>
  </div>
  <div class="trans-container"><ul class="basic">
   <li class="word-exp"><span class="pos">int.</span><span class="trans">喂，你好（用于问候或打招呼）；喂，你好（打电话时的招呼语）；喂，你好（引起别人注意的招呼语）；&lt;非正式&gt;喂，嘿 (认为别人说了蠢话或分心)；&lt;英，旧&gt;嘿（表示惊讶）</span></li>
   <li class="word-exp"><span class="pos">n.</span><span class="trans">招呼，问候；（Hello）（法、印、美、俄）埃洛（人名）</span></li>
   <li class="word-exp"><span class="pos">v.</span><span class="trans">说（或大声说）“喂”；打招呼</span></li>
  </ul></div>
  <div class="exam_type">
   <span class="exam_type-value">初中</span><span class="exam_type-value">高中</span>
   <span class="exam_type-value">CET4</span><span class="exam_type-value">CET6</span>
   <span class="exam_type-value">考研</span>
  </div>
 </div>
 <div class="blng_sents_part dict-module"><ul>
  <li class="mcols-layout"><div class="col2"><div class="sen-eng">'Hello, Paul,' they chorused.</div><div class="sen-ch">“你好，保罗。”他们齐声问候道。</div></div></li>
  <li class="mcols-layout"><div class="col2"><div class="sen-eng">Hello, is there anybody there?</div><div class="sen-ch">喂，那里有人吗？</div></div></li>
  <li class="mcols-layout"><div class="col2"><div class="sen-eng">Hello, is Gordon there please?</div><div class="sen-ch">您好，请问戈登在吗？</div></div></li>
 </ul></div>
</div></body></html>"#;

fn hello() -> TranslationData {
    TranslationData::FromEnglish(ToChinese {
        input_text: "hello".to_owned(),
        pronunciation: Pronunciation {
            uk: Some("həˈləʊ".to_owned()),
            us: Some("həˈloʊ".to_owned()),
        },
        meanings: vec![
            Meaning {
                part_of_speech: Some("int.".to_owned()),
                definitions: vec![
                    "喂，你好（用于问候或打招呼）".to_owned(),
                    "喂，你好（打电话时的招呼语）".to_owned(),
                    "喂，你好（引起别人注意的招呼语）".to_owned(),
                    "<非正式>喂，嘿 (认为别人说了蠢话或分心)".to_owned(),
                    "<英，旧>嘿（表示惊讶）".to_owned(),
                ],
            },
            Meaning {
                part_of_speech: Some("n.".to_owned()),
                definitions: vec![
                    "招呼，问候".to_owned(),
                    "（Hello）（法、印、美、俄）埃洛（人名）".to_owned(),
                ],
            },
            Meaning {
                part_of_speech: Some("v.".to_owned()),
                definitions: vec!["说（或大声说）“喂”".to_owned(), "打招呼".to_owned()],
            },
        ],
        examples: vec![
            Example {
                en: "'Hello, Paul,' they chorused.".to_owned(),
                zh: "“你好，保罗。”他们齐声问候道。".to_owned(),
            },
            Example {
                en: "Hello, is there anybody there?".to_owned(),
                zh: "喂，那里有人吗？".to_owned(),
            },
            Example {
                en: "Hello, is Gordon there please?".to_owned(),
                zh: "您好，请问戈登在吗？".to_owned(),
            },
        ],
        exams: vec![
            "初中".to_owned(),
            "高中".to_owned(),
            "CET4".to_owned(),
            "CET6".to_owned(),
            "考研".to_owned(),
        ],
    })
}

#[test]
fn test_translation() {
    let (lookup, action) = Lookup::start("hello", false).unwrap();
    assert_eq!(action, Action::Fetch);
    let result = match lookup.after_fetch(HELLO_PAGE) {
        Action::Finish(Ok(result)) => result,
        other => panic!("unexpected action {other:?}"),
    };
    assert_eq!(
        result,
        FetchedResult {
            is_cached: false,
            data: hello(),
        }
    );
}

#[test]
fn cached_lookup_stores_then_answers() {
    let (lookup, action) = Lookup::start("hello", true).unwrap();
    assert_eq!(action, Action::ReadCache);
    assert_eq!(lookup.after_cache_read(CacheRead::Miss), Action::Fetch);
    let data = match lookup.after_fetch(HELLO_PAGE) {
        Action::WriteCache(data) => data,
        other => panic!("unexpected action {other:?}"),
    };
    assert_eq!(data, hello());
    assert_eq!(
        lookup.after_write(data),
        Action::Finish(Ok(FetchedResult {
            is_cached: false,
            data: hello(),
        }))
    );
    assert_eq!(
        lookup.after_cache_read(CacheRead::Hit(hello())),
        Action::Finish(Ok(FetchedResult {
            is_cached: true,
            data: hello(),
        }))
    );
}
