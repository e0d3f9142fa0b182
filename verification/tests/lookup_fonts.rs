use rdict::fonts::{
    contains_hangul, contains_japanese_kana, system_chinese_font, system_japanese_font,
    system_korean_font, title_font, Platform, TitleFont,
};
use rdict::lookup::{Action, CacheRead, Lookup};
use rdict::parse::NotFound;
use rdict::rdict::{FetchedResult, TranslationData};
use rdict::Error;

const EC_PAGE: &str = r#"<div class="search_result-dict"><div class="ec dict-module">
 <div class="word-head"><div class="title">hello</div></div>
 <div class="trans-container"><ul class="basic"><li class="word-exp"><span class="trans">你好</span></li></ul></div>
</div></div>"#;

const CE_PAGE: &str = r#"<div class="search_result-dict"><div class="ce dict-module">
 <div class="word-head"><div class="title">你好</div></div>
 <div class="trans-container"><ul class="basic"><li class="mcols"><div class="col2"><a class="point">hello</a></div></li></ul></div>
</div></div>"#;

#[test]
fn lookup_refuses_empty_input() {
    assert!(matches!(Lookup::start("", true), Err(Error::EmptyInput)));
}

#[test]
fn lookup_with_cache_reads_it_first() {
    let (l, a) = Lookup::start("hello", true).unwrap();
    assert_eq!(a, Action::ReadCache);
    assert_eq!(l.text(), "hello");
    assert_eq!(l.table(), "to_chinese_results");
    assert_eq!(l.after_cache_read(CacheRead::Miss), Action::Fetch);
    assert_eq!(l.after_cache_read(CacheRead::Broken), Action::DeleteCached);
    assert_eq!(l.after_delete(), Action::Fetch);
    let data = TranslationData::NotFound(NotFound {
        suggestions: vec!["x".into()],
    });
    assert_eq!(l.after_cache_read(CacheRead::Hit(data)), Action::DeleteCached);
    let wrong = TranslationData::ToEnglish(Default::default());
    assert_eq!(l.after_cache_read(CacheRead::Hit(wrong)), Action::DeleteCached);
    let data = TranslationData::FromEnglish(Default::default());
    assert_eq!(
        l.after_cache_read(CacheRead::Hit(data.clone())),
        Action::Finish(Ok(FetchedResult {
            data,
            is_cached: true
        }))
    );
    match l.after_fetch(EC_PAGE) {
        Action::WriteCache(TranslationData::FromEnglish(tc)) => {
            assert_eq!(tc.input_text, "hello");
            let again = l.after_write(TranslationData::FromEnglish(tc.clone()));
            assert_eq!(
                again,
                Action::Finish(Ok(FetchedResult {
                    data: TranslationData::FromEnglish(tc),
                    is_cached: false
                }))
            );
        }
        other => panic!("unexpected {other:?}"),
    }
}

#[test]
fn lookup_without_cache_fetches() {
    let (l, a) = Lookup::start("你好", false).unwrap();
    assert_eq!(a, Action::Fetch);
    assert_eq!(l.table(), "to_english_results");
    assert_eq!(
        l.after_fetch(EC_PAGE),
        Action::Finish(Err(Error::NoTranslationResults))
    );
    match l.after_fetch(CE_PAGE) {
        Action::Finish(Ok(FetchedResult {
            data: TranslationData::ToEnglish(te),
            is_cached: false,
        })) => assert_eq!(te.meanings, vec!["hello".to_string()]),
        other => panic!("unexpected {other:?}"),
    }
    assert_eq!(
        l.after_cache_read(CacheRead::Hit(TranslationData::FromEnglish(Default::default()))),
        Action::DeleteCached
    );
    assert_eq!(
        l.after_fetch("<p>blocked</p>"),
        Action::Finish(Err(Error::Parse("no .search_result-dict found".into())))
    );
    assert_eq!(
        l.after_fetch(r#"<div class="search_result-dict"></div>"#),
        Action::Finish(Err(Error::NoTranslationResults))
    );
}

#[test]
fn scripts_are_recognised() {
    assert!(contains_japanese_kana("どこ"));
    assert!(contains_japanese_kana("ㇰ"));
    assert!(!contains_japanese_kana("哪里"));
    assert!(contains_hangul("어디"));
    assert!(contains_hangul("ㄱ"));
    assert!(!contains_hangul("where"));
}

#[test]
fn title_fonts_follow_the_script() {
    assert_eq!(
        title_font("どこ", Platform::MacOs, true),
        TitleFont::Family("Hiragino Sans")
    );
    assert_eq!(
        title_font("어디", Platform::Windows, false),
        TitleFont::Family("Malgun Gothic")
    );
    assert_eq!(
        title_font("哪里", Platform::Other, true),
        TitleFont::Family("Noto Sans CJK SC")
    );
    assert_eq!(title_font("where", Platform::Other, false), TitleFont::RobotoBold);
    assert_eq!(title_font("哪里", Platform::Android, true), TitleFont::DefaultBold);
    assert_eq!(system_chinese_font(Platform::MacOs), "PingFang SC");
    assert_eq!(system_japanese_font(Platform::Windows), "Yu Gothic");
    assert_eq!(system_korean_font(Platform::Android), "Noto Sans CJK KR");
}

#[test]
fn lookup_cache_queries_name_the_table_of_the_text() {
    let (zh, _) = Lookup::start("你好", true).unwrap();
    assert_eq!(zh.select_query(), "SELECT data FROM to_english_results WHERE text = ?");
    assert_eq!(zh.delete_query(), "DELETE FROM to_english_results WHERE text = ?");
    assert_eq!(
        zh.insert_query(),
        "INSERT OR REPLACE INTO to_english_results (text, data) VALUES (?, ?)"
    );
    let (en, _) = Lookup::start("hello", false).unwrap();
    assert_eq!(en.select_query(), "SELECT data FROM to_chinese_results WHERE text = ?");
}
