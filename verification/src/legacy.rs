//! The first generation of the reader, which handled English only: it reads
//! the whole HTML document rather than its results element.

pub mod output;

pub use crate::model::contains_cjk;
pub use output::{output_chinese, output_english};

use crate::html::{document_selection, select_in_document};
use crate::parse::{
    first_text, first_text_in, first_text_or_empty, first_text_or_empty_in, keep_nonblank,
    lemma_somes_step, nonblank, somes, split_and_trim, texts_of, texts_of_all, trimmed_pieces,
};
use crate::text::{is_blank, strip, stripped, trim, trimmed, CharSet};
use crate::lookup::table_of;
use crate::model::has_cjk;
use crate::Error;
use vstd::prelude::*;

verus! {

/// British and American phonetic transcriptions, empty when absent.
#[derive(Debug, Default, Clone, PartialEq, Eq)]
pub struct Phonetic {
    pub uk: String,
    pub us: String,
}

impl DeepView for Phonetic {
    type V = (Seq<char>, Seq<char>);

    open spec fn deep_view(&self) -> Self::V {
        (self.uk@, self.us@)
    }
}

/// An English sentence and its Chinese translation.
#[derive(Debug, Default, Clone, PartialEq, Eq)]
pub struct ExampleSentence {
    pub english_sentence: String,
    pub chinese_sentence: String,
}

impl DeepView for ExampleSentence {
    type V = (Seq<char>, Seq<char>);

    open spec fn deep_view(&self) -> Self::V {
        (self.english_sentence@, self.chinese_sentence@)
    }
}

/// The Chinese translations of the word as one part of speech.
#[derive(Debug, Default, Clone, PartialEq, Eq)]
pub struct ToChineseTranslation {
    pub english_word_type: String,
    pub chinese_translation: Vec<String>,
}

impl DeepView for ToChineseTranslation {
    type V = (Seq<char>, Seq<Seq<char>>);

    open spec fn deep_view(&self) -> Self::V {
        (self.english_word_type@, self.chinese_translation.deep_view())
    }
}

/// An English word explained in Chinese.
#[derive(Debug, Default, Clone, PartialEq, Eq)]
pub struct ToChinese {
    pub phonetic: Phonetic,
    pub translations: Vec<ToChineseTranslation>,
    pub example_sentenses: Vec<ExampleSentence>,
}

/// The model of a `ToChinese`.
pub struct ToChineseView {
    pub phonetic: (Seq<char>, Seq<char>),
    pub translations: Seq<(Seq<char>, Seq<Seq<char>>)>,
    pub example_sentenses: Seq<(Seq<char>, Seq<char>)>,
}

impl DeepView for ToChinese {
    type V = ToChineseView;

    open spec fn deep_view(&self) -> ToChineseView {
        ToChineseView {
            phonetic: self.phonetic.deep_view(),
            translations: self.translations.deep_view(),
            example_sentenses: self.example_sentenses.deep_view(),
        }
    }
}

/// A Chinese word translated to English.
#[derive(Debug, Default, Clone, PartialEq, Eq)]
pub struct ToEnglish {
    pub translations: Vec<String>,
    pub example_sentenses: Vec<ExampleSentence>,
}

/// The model of a `ToEnglish`.
pub struct ToEnglishView {
    pub translations: Seq<Seq<char>>,
    pub example_sentenses: Seq<(Seq<char>, Seq<char>)>,
}

impl DeepView for ToEnglish {
    type V = ToEnglishView;

    open spec fn deep_view(&self) -> ToEnglishView {
        ToEnglishView {
            translations: self.translations.deep_view(),
            example_sentenses: self.example_sentenses.deep_view(),
        }
    }
}

/// A translation in either direction.
#[derive(Debug, Clone, PartialEq, Eq)]
pub enum Data {
    ToChinese(ToChinese),
    ToEnglish(ToEnglish),
}

/// How a translation is output.
#[derive(Debug, Clone, Copy, PartialEq, Eq)]
pub enum Format {
    Pretty,
    Json,
}

/// A translation, and whether it came from the cache.
#[derive(Debug, Clone, PartialEq, Eq)]
pub struct FetchedResult {
    pub data: Data,
    pub is_cached: bool,
}

pub const PER_PHONE: &'static str = ".phone_con .per-phone";

pub const PHONETIC: &'static str = ".phonetic";

pub const WORD_EXP: &'static str = ".trans-container .basic .word-exp";

pub const TRANS: &'static str = ".trans";

pub const POS: &'static str = ".pos";

pub const EXAMPLE: &'static str = ".trans-container .mcols-layout .col2";

pub const SEN_ENG: &'static str = ".sen-eng";

pub const SEN_CH: &'static str = ".sen-ch";

pub const POINT: &'static str = ".trans-container .basic .col2 .point";

/// The transcription that the `i`-th phonetic element gives: its text
/// without slashes, empty when it has none or there is no such element.
pub open spec fn transcription(html: Seq<char>, i: int) -> Seq<char> {
    let phones = document_selection(html, PER_PHONE@);
    if i < phones.len() {
        trimmed(stripped(first_text_or_empty(phones[i], PHONETIC@), CharSet::Only('/')))
    } else {
        Seq::empty()
    }
}

/// The translation that a `word-exp` element gives, when it has a part of
/// speech or a translation.
pub open spec fn translation_of(el: Seq<char>) -> Option<(Seq<char>, Seq<Seq<char>>)> {
    let chinese = match first_text(el, TRANS@) {
        Some(t) => trimmed_pieces(t, '；'),
        None => Seq::empty(),
    };
    let kind = first_text_or_empty(el, POS@);
    if chinese.len() > 0 || kind.len() > 0 {
        Some((kind, chinese))
    } else {
        None
    }
}

/// The example that a `col2` element gives, when one of its texts is
/// nonempty.
pub open spec fn sentence_of(el: Seq<char>) -> Option<(Seq<char>, Seq<char>)> {
    let english = first_text_or_empty(el, SEN_ENG@);
    let chinese = first_text_or_empty(el, SEN_CH@);
    if english.len() > 0 || chinese.len() > 0 {
        Some((english, chinese))
    } else {
        None
    }
}

/// The examples of the document `html`.
pub open spec fn sentences_of(html: Seq<char>) -> Seq<(Seq<char>, Seq<char>)> {
    somes(document_selection(html, EXAMPLE@).map_values(|el: Seq<char>| sentence_of(el)))
}

/// What the English to Chinese document `html` says.
pub open spec fn chinese_of(html: Seq<char>) -> ToChineseView {
    ToChineseView {
        phonetic: (transcription(html, 0), transcription(html, 1)),
        translations: somes(
            document_selection(html, WORD_EXP@).map_values(|el: Seq<char>| translation_of(el)),
        ),
        example_sentenses: sentences_of(html),
    }
}

/// What the Chinese to English document `html` says.
pub open spec fn english_of(html: Seq<char>) -> ToEnglishView {
    ToEnglishView {
        translations: nonblank(texts_of(document_selection(html, POINT@))),
        example_sentenses: sentences_of(html),
    }
}

fn transcription_in(el: &str) -> (r: String)
    ensures
        r@ == trimmed(stripped(first_text_or_empty(el@, PHONETIC@), CharSet::Only('/'))),
{
    let text = first_text_or_empty_in(el, PHONETIC);
    let unslashed = strip(text.as_str(), CharSet::Only('/'));
    trim(unslashed.as_str())
}

fn translation(el: &str) -> (r: Option<ToChineseTranslation>)
    ensures
        r.deep_view() == translation_of(el@),
{
    let chinese_translation = match first_text_in(el, TRANS) {
        Some(t) => split_and_trim(t.as_str(), '；'),
        None => Vec::new(),
    };
    let english_word_type = first_text_or_empty_in(el, POS);
    if chinese_translation.len() > 0 || !is_blank(&english_word_type) {
        Some(ToChineseTranslation { english_word_type, chinese_translation })
    } else {
        None
    }
}

fn sentences(html: &str) -> (r: Vec<ExampleSentence>)
    ensures
        r.deep_view() == sentences_of(html@),
{
    let elements = select_in_document(html, EXAMPLE);
    let ghost found = elements.deep_view().map_values(|el: Seq<char>| sentence_of(el));
    let mut r: Vec<ExampleSentence> = Vec::new();
    let mut i: usize = 0;
    while i < elements.len()
        invariant
            i <= elements.len(),
            found == elements.deep_view().map_values(|el: Seq<char>| sentence_of(el)),
            r.deep_view() == somes(found.take(i as int)),
        decreases elements.len() - i,
    {
        proof {
            lemma_somes_step(found, i as int);
            assert(elements.deep_view()[i as int] == elements@[i as int]@);
        }
        let english_sentence = first_text_or_empty_in(elements[i].as_str(), SEN_ENG);
        let chinese_sentence = first_text_or_empty_in(elements[i].as_str(), SEN_CH);
        if !is_blank(&english_sentence) || !is_blank(&chinese_sentence) {
            let s = ExampleSentence { english_sentence, chinese_sentence };
            let ghost before = r.deep_view();
            r.push(s);
            assert(r.deep_view() =~= before.push(s.deep_view()));
        }
        i = i + 1;
    }
    assert(found.take(elements.len() as int) =~= found);
    r
}

/// Reads an English to Chinese document.
pub fn to_chinese(html: &str) -> (r: Result<ToChinese, Error>)
    ensures
        r is Ok <==> chinese_of(html@).translations.len() > 0,
        r matches Ok(v) ==> v.deep_view() == chinese_of(html@),
        r matches Err(e) ==> e == Error::NoTranslationResults,
{
    let phones = select_in_document(html, PER_PHONE);
    proof {
        if phones.len() > 0 {
            assert(phones.deep_view()[0] == phones@[0]@);
        }
        if phones.len() > 1 {
            assert(phones.deep_view()[1] == phones@[1]@);
        }
    }
    let uk = if phones.len() > 0 {
        transcription_in(phones[0].as_str())
    } else {
        String::new()
    };
    let us = if phones.len() > 1 {
        transcription_in(phones[1].as_str())
    } else {
        String::new()
    };

    let elements = select_in_document(html, WORD_EXP);
    let ghost found = elements.deep_view().map_values(|el: Seq<char>| translation_of(el));
    let mut translations: Vec<ToChineseTranslation> = Vec::new();
    let mut i: usize = 0;
    while i < elements.len()
        invariant
            i <= elements.len(),
            found == elements.deep_view().map_values(|el: Seq<char>| translation_of(el)),
            translations.deep_view() == somes(found.take(i as int)),
        decreases elements.len() - i,
    {
        proof {
            lemma_somes_step(found, i as int);
            assert(elements.deep_view()[i as int] == elements@[i as int]@);
        }
        match translation(elements[i].as_str()) {
            Some(t) => {
                let ghost before = translations.deep_view();
                translations.push(t);
                assert(translations.deep_view() =~= before.push(t.deep_view()));
            },
            None => {},
        }
        i = i + 1;
    }
    assert(found.take(elements.len() as int) =~= found);

    let example_sentenses = sentences(html);
    if translations.len() == 0 {
        return Err(Error::NoTranslationResults);
    }
    let r = ToChinese { phonetic: Phonetic { uk, us }, translations, example_sentenses };
    assert(r.phonetic.deep_view() == chinese_of(html@).phonetic);
    assert(r.translations.deep_view() == chinese_of(html@).translations);
    Ok(r)
}

/// Reads a Chinese to English document.
pub fn to_english(html: &str) -> (r: Result<ToEnglish, Error>)
    ensures
        r is Ok <==> english_of(html@).translations.len() > 0,
        r matches Ok(v) ==> v.deep_view() == english_of(html@),
        r matches Err(e) ==> e == Error::NoTranslationResults,
{
    let points = select_in_document(html, POINT);
    let translations = keep_nonblank(texts_of_all(&points));
    let example_sentenses = sentences(html);
    if translations.len() == 0 {
        return Err(Error::NoTranslationResults);
    }
    let r = ToEnglish { translations, example_sentenses };
    assert(r.translations.deep_view() == english_of(html@).translations);
    Ok(r)
}

/// The cache table of `word`: a word with a CJK ideograph is stored with its
/// English translations, another word with its Chinese ones.
pub fn table(word: &str) -> (r: &'static str)
    ensures
        r@ == table_of(has_cjk(word@)),
{
    if contains_cjk(word) {
        "to_english_results"
    } else {
        "to_chinese_results"
    }
}

/// Reads the page fetched for `word`: as Chinese to English when the word
/// holds a CJK ideograph, as English to Chinese otherwise.
pub fn translate(word: &str, html: &str) -> (r: Result<Data, Error>)
    ensures
        has_cjk(word@) ==> {
            &&& r is Ok <==> english_of(html@).translations.len() > 0
            &&& r matches Ok(d) ==> (d matches Data::ToEnglish(v) && v.deep_view() == english_of(
                html@,
            ))
        },
        !has_cjk(word@) ==> {
            &&& r is Ok <==> chinese_of(html@).translations.len() > 0
            &&& r matches Ok(d) ==> (d matches Data::ToChinese(v) && v.deep_view() == chinese_of(
                html@,
            ))
        },
        r matches Err(e) ==> e == Error::NoTranslationResults,
{
    if contains_cjk(word) {
        match to_english(html) {
            Ok(v) => Ok(Data::ToEnglish(v)),
            Err(e) => Err(e),
        }
    } else {
        match to_chinese(html) {
            Ok(v) => Ok(Data::ToChinese(v)),
            Err(e) => Err(e),
        }
    }
}

} // verus!
