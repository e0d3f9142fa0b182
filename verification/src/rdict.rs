//! A looked-up translation, and the reading of a whole result page.

use crate::parse::{en, fr, ja, ko, suggestions_of, DictPage, NotFound};
use crate::parse::en::{from_english_result, to_english_result, EnglishParser};
use crate::html::document_selection;
use crate::parse::selectors;
use crate::render::{self, Render};
use crate::Error;
use vstd::prelude::*;

verus! {

/// What a result page says, by direction of translation.
#[derive(Debug, Clone, PartialEq)]
pub enum TranslationData {
    FromEnglish(en::ToChinese),
    ToEnglish(en::ToEnglish),
    FromFrench(fr::ToChinese),
    ToFrench(fr::ToFrench),
    FromKorean(ko::ToChinese),
    ToKorean(ko::ToKorean),
    FromJapanese(ja::ToChinese),
    ToJapanese(ja::ToJapanese),
    NotFound(NotFound),
}

/// The model of a `TranslationData`.
pub enum TranslationDataView {
    FromEnglish(en::ToChineseView),
    ToEnglish(en::ToEnglishView),
    FromFrench(fr::ToChineseView),
    ToFrench(fr::ToFrenchView),
    FromKorean(ko::ToChineseView),
    ToKorean(ko::ToKoreanView),
    FromJapanese(ja::ToChineseView),
    ToJapanese(ja::ToJapaneseView),
    NotFound(Seq<Seq<char>>),
}

impl DeepView for TranslationData {
    type V = TranslationDataView;

    open spec fn deep_view(&self) -> TranslationDataView {
        match self {
            TranslationData::FromEnglish(x) => TranslationDataView::FromEnglish(x.deep_view()),
            TranslationData::ToEnglish(x) => TranslationDataView::ToEnglish(x.deep_view()),
            TranslationData::FromFrench(x) => TranslationDataView::FromFrench(x.deep_view()),
            TranslationData::ToFrench(x) => TranslationDataView::ToFrench(x.deep_view()),
            TranslationData::FromKorean(x) => TranslationDataView::FromKorean(x.deep_view()),
            TranslationData::ToKorean(x) => TranslationDataView::ToKorean(x.deep_view()),
            TranslationData::FromJapanese(x) => TranslationDataView::FromJapanese(x.deep_view()),
            TranslationData::ToJapanese(x) => TranslationDataView::ToJapanese(x.deep_view()),
            TranslationData::NotFound(x) => TranslationDataView::NotFound(x.deep_view()),
        }
    }
}

/// The lines of a translation, laid out for rendering.
pub open spec fn translation_lines(colored: bool, v: TranslationDataView) -> Seq<Seq<char>> {
    match v {
        TranslationDataView::FromEnglish(x) => render::en::from_english_lines(colored, x),
        TranslationDataView::ToEnglish(x) => render::en::to_english_lines(colored, x),
        TranslationDataView::FromFrench(x) => render::fr::from_french_lines(colored, x),
        TranslationDataView::ToFrench(x) => render::fr::to_french_lines(colored, x),
        TranslationDataView::FromKorean(x) => render::ko::from_korean_lines(colored, x),
        TranslationDataView::ToKorean(x) => render::ko::to_korean_lines(colored, x),
        TranslationDataView::FromJapanese(x) => render::ja::from_japanese_lines(colored, x),
        TranslationDataView::ToJapanese(x) => render::ja::to_japanese_lines(colored, x),
        TranslationDataView::NotFound(x) => render::not_found_lines(colored, x),
    }
}

impl TranslationData {
    /// The translation as Markdown with ANSI colors.
    pub fn render_colored(&self) -> (r: String)
        ensures
            r@ == render::rendered(translation_lines(true, self.deep_view())),
    {
        match self {
            TranslationData::FromEnglish(x) => x.render_colored(),
            TranslationData::ToEnglish(x) => x.render_colored(),
            TranslationData::FromFrench(x) => x.render_colored(),
            TranslationData::ToFrench(x) => x.render_colored(),
            TranslationData::FromKorean(x) => x.render_colored(),
            TranslationData::ToKorean(x) => x.render_colored(),
            TranslationData::FromJapanese(x) => x.render_colored(),
            TranslationData::ToJapanese(x) => x.render_colored(),
            TranslationData::NotFound(x) => x.render_colored(),
        }
    }

    /// The translation as plain Markdown.
    pub fn render_plain(&self) -> (r: String)
        ensures
            r@ == render::rendered(translation_lines(false, self.deep_view())),
    {
        match self {
            TranslationData::FromEnglish(x) => x.render_plain(),
            TranslationData::ToEnglish(x) => x.render_plain(),
            TranslationData::FromFrench(x) => x.render_plain(),
            TranslationData::ToFrench(x) => x.render_plain(),
            TranslationData::FromKorean(x) => x.render_plain(),
            TranslationData::ToKorean(x) => x.render_plain(),
            TranslationData::FromJapanese(x) => x.render_plain(),
            TranslationData::ToJapanese(x) => x.render_plain(),
            TranslationData::NotFound(x) => x.render_plain(),
        }
    }
}

/// A translation, and whether it came from the cache.
#[derive(Debug, Clone, PartialEq)]
pub struct FetchedResult {
    pub data: TranslationData,
    pub is_cached: bool,
}

/// The message of the error that a document without results element gives.
pub open spec fn missing_results_message() -> Seq<char> {
    "no .search_result-dict found"@
}

/// The outcome of reading the results element `body` of the page of a text
/// with a CJK ideograph (`chinese`), read as Chinese to English, or of
/// another text, read as English to Chinese: its translation, or its
/// suggestions when it has none.
pub open spec fn script_outcome(body: Seq<char>, chinese: bool) -> Result<TranslationDataView, Error> {
    let found: Option<TranslationDataView> = if chinese {
        match to_english_result(body) {
            Ok(v) => Some(TranslationDataView::ToEnglish(v)),
            Err(_) => None,
        }
    } else {
        match from_english_result(body) {
            Ok(v) => Some(TranslationDataView::FromEnglish(v)),
            Err(_) => None,
        }
    };
    match found {
        Some(v) => Ok(v),
        None => {
            let suggestions = suggestions_of(body);
            if suggestions.len() > 0 {
                Ok(TranslationDataView::NotFound(suggestions))
            } else {
                Err(Error::NoTranslationResults)
            }
        },
    }
}

/// Reads the HTML document of the page of a text with a CJK ideograph
/// (`chinese`) with the Chinese to English parser, or of another text with
/// the English to Chinese parser; when that parser finds nothing, the
/// suggestions of the page, or an error.
pub fn translate_for_script(html: &str, chinese: bool) -> (r: Result<TranslationData, Error>)
    ensures
        document_selection(html@, selectors::BODY@).len() == 0 ==> (r matches Err(Error::Parse(m))
            && m@ == missing_results_message()),
        document_selection(html@, selectors::BODY@).len() > 0 ==> {
            let body = document_selection(html@, selectors::BODY@)[0];
            &&& r matches Ok(v) ==> script_outcome(body, chinese) == Ok::<TranslationDataView, Error>(
                v.deep_view(),
            )
            &&& r matches Err(e) ==> script_outcome(body, chinese) == Err::<TranslationDataView, Error>(
                e,
            )
        },
{
    let page = match DictPage::from_document(html) {
        Some(page) => page,
        None => return Err(Error::Parse(String::from_str("no .search_result-dict found"))),
    };
    let parsed = if chinese {
        match EnglishParser::to_english(&page) {
            Ok(t) => Ok(TranslationData::ToEnglish(t)),
            Err(e) => Err(e),
        }
    } else {
        match EnglishParser::to_chinese(&page) {
            Ok(t) => Ok(TranslationData::FromEnglish(t)),
            Err(e) => Err(e),
        }
    };
    match parsed {
        Ok(data) => Ok(data),
        Err(Error::NoTranslationResults) => match page.not_found() {
            Ok(suggestions) => Ok(TranslationData::NotFound(suggestions)),
            Err(e) => Err(e),
        },
        Err(e) => Err(e),
    }
}

} // verus!
