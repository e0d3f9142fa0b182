//! Which reading a page gets: the parser of the module it holds, the parser
//! of the script of the text looked up, and the suggestions as a fallback.

use crate::parse::{
    en, fr, has_module_of, has_page_of, ja, ko, nonblank, select, suggestions_of,
    texts_of, translation_of,
};
use crate::rdict::{script_outcome, TranslationDataView};
use crate::Error;
use vstd::prelude::*;

verus! {

/// The module a page is read by is the first of `ec`, `ce`, `fc`, `cf`,
/// `ck`, `kc`, `cj` that it holds, else the Japanese page `newjc`; the
/// outcome is that module's parser's outcome, and a page with none of them
/// has no translation.
pub proof fn law_translation_by_module(body: Seq<char>)
    ensures
        has_module_of(body, "ec"@) ==> translation_of(body) == match en::from_english_result(body) {
            Ok(v) => Ok(TranslationDataView::FromEnglish(v)),
            Err(e) => Err(e),
        },
        !has_module_of(body, "ec"@) && has_module_of(body, "ce"@) ==> translation_of(body)
            == match en::to_english_result(body) {
            Ok(v) => Ok(TranslationDataView::ToEnglish(v)),
            Err(e) => Err(e),
        },
        !has_module_of(body, "ec"@) && !has_module_of(body, "ce"@) && has_module_of(body, "fc"@)
            ==> translation_of(body) == match fr::from_french_result(body) {
            Ok(v) => Ok(TranslationDataView::FromFrench(v)),
            Err(e) => Err(e),
        },
        !has_module_of(body, "ec"@) && !has_module_of(body, "ce"@) && !has_module_of(body, "fc"@)
            && has_module_of(body, "cf"@) ==> translation_of(body) == match fr::to_french_result(
            body,
        ) {
            Ok(v) => Ok(TranslationDataView::ToFrench(v)),
            Err(e) => Err(e),
        },
        !has_module_of(body, "ec"@) && !has_module_of(body, "ce"@) && !has_module_of(body, "fc"@)
            && !has_module_of(body, "cf"@) && has_module_of(body, "ck"@) ==> translation_of(body)
            == match ko::to_korean_result(body) {
            Ok(v) => Ok(TranslationDataView::ToKorean(v)),
            Err(e) => Err(e),
        },
        !has_module_of(body, "ec"@) && !has_module_of(body, "ce"@) && !has_module_of(body, "fc"@)
            && !has_module_of(body, "cf"@) && !has_module_of(body, "ck"@) && has_module_of(
            body,
            "kc"@,
        ) ==> translation_of(body) == match ko::from_korean_result(body) {
            Ok(v) => Ok(TranslationDataView::FromKorean(v)),
            Err(e) => Err(e),
        },
        !has_module_of(body, "ec"@) && !has_module_of(body, "ce"@) && !has_module_of(body, "fc"@)
            && !has_module_of(body, "cf"@) && !has_module_of(body, "ck"@) && !has_module_of(
            body,
            "kc"@,
        ) && has_module_of(body, "cj"@) ==> translation_of(body) == match ja::to_japanese_result(
            body,
        ) {
            Ok(v) => Ok(TranslationDataView::ToJapanese(v)),
            Err(e) => Err(e),
        },
        !has_module_of(body, "ec"@) && !has_module_of(body, "ce"@) && !has_module_of(body, "fc"@)
            && !has_module_of(body, "cf"@) && !has_module_of(body, "ck"@) && !has_module_of(
            body,
            "kc"@,
        ) && !has_module_of(body, "cj"@) && has_page_of(body, "newjc"@) ==> translation_of(body)
            == match ja::from_japanese_result(body) {
            Ok(v) => Ok(TranslationDataView::FromJapanese(v)),
            Err(e) => Err(e),
        },
        !has_module_of(body, "ec"@) && !has_module_of(body, "ce"@) && !has_module_of(body, "fc"@)
            && !has_module_of(body, "cf"@) && !has_module_of(body, "ck"@) && !has_module_of(
            body,
            "kc"@,
        ) && !has_module_of(body, "cj"@) && !has_page_of(body, "newjc"@) ==> translation_of(body)
            == Err::<TranslationDataView, Error>(Error::NoTranslationResults),
{
}

/// The page of a text with a CJK ideograph is read as Chinese to English,
/// that of any other text as English to Chinese. Whichever the script, when
/// that reading finds nothing the page's suggestions are the outcome if it
/// has any, and otherwise there is no translation.
pub proof fn law_script_reading(body: Seq<char>, chinese: bool)
    ensures
        chinese ==> (en::to_english_result(body) matches Ok(v) ==> script_outcome(body, chinese)
            == Ok::<TranslationDataView, Error>(TranslationDataView::ToEnglish(v))),
        !chinese ==> (en::from_english_result(body) matches Ok(v) ==> script_outcome(body, chinese)
            == Ok::<TranslationDataView, Error>(TranslationDataView::FromEnglish(v))),
        (if chinese {
            en::to_english_result(body) is Err
        } else {
            en::from_english_result(body) is Err
        }) ==> {
            &&& suggestions_of(body).len() > 0 ==> script_outcome(body, chinese) == Ok::<
                TranslationDataView,
                Error,
            >(TranslationDataView::NotFound(suggestions_of(body)))
            &&& suggestions_of(body).len() == 0 ==> script_outcome(body, chinese) == Err::<
                TranslationDataView,
                Error,
            >(Error::NoTranslationResults)
        },
{
}

/// The texts that `nonblank` keeps are exactly those that hold a character,
/// in their order.
pub proof fn law_nonblank_keeps_nonempty(s: Seq<Seq<char>>)
    ensures
        nonblank(s) == s.filter(|t: Seq<char>| t.len() > 0),
    decreases s.len(),
{
    reveal(Seq::filter);
    if s.len() > 0 {
        law_nonblank_keeps_nonempty(s.drop_last());
        let m = s.map_values(|t: Seq<char>| crate::parse::nonempty(t));
        assert(m.drop_last() =~= s.drop_last().map_values(|t: Seq<char>| crate::parse::nonempty(t)));
        assert(m.last() == crate::parse::nonempty(s.last()));
    }
}

/// The French translations of a Chinese to French page are the texts of all
/// its `div.dict-module li.each-word a.point` elements that hold a
/// character, in page order; the page has a translation exactly when there
/// is at least one.
pub proof fn law_french_translations(body: Seq<char>)
    ensures
        fr::to_french_of(body).meanings == texts_of(select(body, fr::POINT@)).filter(
            |t: Seq<char>| t.len() > 0,
        ),
        fr::to_french_result(body) is Ok <==> texts_of(select(body, fr::POINT@)).filter(
            |t: Seq<char>| t.len() > 0,
        ).len() > 0,
        fr::to_french_result(body) matches Ok(v) ==> v == fr::to_french_of(body),
{
    law_nonblank_keeps_nonempty(texts_of(select(body, fr::POINT@)));
}

} // verus!
