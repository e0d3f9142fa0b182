//! English to Chinese (`ec`) and Chinese to English (`ce`) pages.

use super::example::{examples_of, extract_examples};
use super::{
    child_text_of, first_text, first_text_in, lemma_somes_step, nonblank_texts,
    nonblank_texts_in, nonempty, nonempty_text, select, select_all, somes, split_and_trim,
    text_of, inner_text, trimmed_pieces, DictPage, ExamplePair,
};
use crate::text::{strip, stripped, trim, trimmed, CharSet};
use crate::Error;
use vstd::prelude::*;

verus! {

/// Reading the English dictionary pages.
pub trait EnglishParser {
    /// Reads an English to Chinese page.
    fn to_chinese(&self) -> Result<ToChinese, Error>;

    /// Reads a Chinese to English page.
    fn to_english(&self) -> Result<ToEnglish, Error>;
}

/// British and American pronunciations.
#[derive(Debug, Default, Clone, PartialEq, Eq)]
pub struct Pronunciation {
    pub uk: Option<String>,
    pub us: Option<String>,
}

impl DeepView for Pronunciation {
    type V = (Option<Seq<char>>, Option<Seq<char>>);

    open spec fn deep_view(&self) -> Self::V {
        (self.uk.deep_view(), self.us.deep_view())
    }
}

/// An English sentence and its Chinese translation.
#[derive(Debug, Default, Clone, PartialEq, Eq)]
pub struct Example {
    pub en: String,
    pub zh: String,
}

impl DeepView for Example {
    type V = (Seq<char>, Seq<char>);

    open spec fn deep_view(&self) -> Self::V {
        (self.en@, self.zh@)
    }
}

/// The definitions of the word as one part of speech.
#[derive(Debug, Default, Clone, PartialEq, Eq)]
pub struct Meaning {
    pub part_of_speech: Option<String>,
    pub definitions: Vec<String>,
}

impl DeepView for Meaning {
    type V = (Option<Seq<char>>, Seq<Seq<char>>);

    open spec fn deep_view(&self) -> Self::V {
        (self.part_of_speech.deep_view(), self.definitions.deep_view())
    }
}

/// An English word explained in Chinese.
#[derive(Debug, Default, Clone, PartialEq, Eq)]
pub struct ToChinese {
    pub input_text: String,
    pub pronunciation: Pronunciation,
    pub meanings: Vec<Meaning>,
    pub examples: Vec<Example>,
    pub exams: Vec<String>,
}

/// The model of a `ToChinese`.
pub struct ToChineseView {
    pub input_text: Seq<char>,
    pub pronunciation: (Option<Seq<char>>, Option<Seq<char>>),
    pub meanings: Seq<(Option<Seq<char>>, Seq<Seq<char>>)>,
    pub examples: Seq<(Seq<char>, Seq<char>)>,
    pub exams: Seq<Seq<char>>,
}

impl DeepView for ToChinese {
    type V = ToChineseView;

    open spec fn deep_view(&self) -> ToChineseView {
        ToChineseView {
            input_text: self.input_text@,
            pronunciation: self.pronunciation.deep_view(),
            meanings: self.meanings.deep_view(),
            examples: self.examples.deep_view(),
            exams: self.exams.deep_view(),
        }
    }
}

/// A Chinese word translated to English.
#[derive(Debug, Default, Clone, PartialEq, Eq)]
pub struct ToEnglish {
    pub input_text: String,
    pub meanings: Vec<String>,
    pub examples: Vec<Example>,
}

/// The model of a `ToEnglish`.
pub struct ToEnglishView {
    pub input_text: Seq<char>,
    pub meanings: Seq<Seq<char>>,
    pub examples: Seq<(Seq<char>, Seq<char>)>,
}

impl DeepView for ToEnglish {
    type V = ToEnglishView;

    open spec fn deep_view(&self) -> ToEnglishView {
        ToEnglishView {
            input_text: self.input_text@,
            meanings: self.meanings.deep_view(),
            examples: self.examples.deep_view(),
        }
    }
}

pub const WORD: &'static str = "div.word-head div.title";

pub const EXAM_LIST: &'static str = "div.exam_type";

pub const EXAM: &'static str = "span.exam_type-value";

pub const PRONUNCIATION: &'static str = "div.phone_con div.per-phone span.phonetic";

pub const MEANINGS: &'static str = ".trans-container .basic .word-exp";

pub const DEFINITIONS: &'static str = "span.trans";

pub const PART_OF_SPEECH: &'static str = "span.pos";

pub const POINT: &'static str = ".trans-container .basic .col2 .point";

/// A phonetic transcription: the element's text without its slashes.
pub open spec fn phonetic_of(el: Seq<char>) -> Option<Seq<char>> {
    nonempty(trimmed(stripped(text_of(el), CharSet::Only('/'))))
}

/// The pronunciation that the `i`-th phonetic element gives, if there is one.
pub open spec fn accent_of(body: Seq<char>, i: int) -> Option<Seq<char>> {
    let phones = select(body, PRONUNCIATION@);
    if i < phones.len() {
        phonetic_of(phones[i])
    } else {
        None
    }
}

/// The meaning that a `word-exp` element gives: its definitions, split at
/// `；`, when it has a definitions element.
pub open spec fn meaning_of(el: Seq<char>) -> Option<(Option<Seq<char>>, Seq<Seq<char>>)> {
    match first_text(el, DEFINITIONS@) {
        Some(t) => Some((first_text(el, PART_OF_SPEECH@), trimmed_pieces(t, '；'))),
        None => None,
    }
}

/// The exams listed in the first exam list of the page.
pub open spec fn exams_of(body: Seq<char>) -> Seq<Seq<char>> {
    let lists = select(body, EXAM_LIST@);
    if lists.len() > 0 {
        nonblank_texts(lists[0], EXAM@)
    } else {
        Seq::empty()
    }
}

/// What an English to Chinese page says.
pub open spec fn from_english(body: Seq<char>) -> ToChineseView {
    ToChineseView {
        input_text: child_text_of(body, WORD@),
        pronunciation: (accent_of(body, 0), accent_of(body, 1)),
        meanings: somes(
            select(body, MEANINGS@).map_values(|el: Seq<char>| meaning_of(el)),
        ),
        examples: examples_of(body),
        exams: exams_of(body),
    }
}

/// An English to Chinese page has a translation when it has an example, a
/// meaning or a pronunciation.
pub open spec fn from_english_found(v: ToChineseView) -> bool {
    v.examples.len() > 0 || v.meanings.len() > 0 || v.pronunciation.0 is Some
        || v.pronunciation.1 is Some
}

/// What a Chinese to English page says: examples read the other way round.
pub open spec fn to_english_of(body: Seq<char>) -> ToEnglishView {
    ToEnglishView {
        input_text: child_text_of(body, WORD@),
        meanings: nonblank_texts(body, POINT@),
        examples: examples_of(body).map_values(
            |p: (Seq<char>, Seq<char>)| (p.1, p.0),
        ),
    }
}

/// The outcome of reading an English to Chinese page.
pub open spec fn from_english_result(body: Seq<char>) -> Result<ToChineseView, Error> {
    if from_english_found(from_english(body)) {
        Ok(from_english(body))
    } else {
        Err(Error::NoTranslationResults)
    }
}

/// The outcome of reading a Chinese to English page.
pub open spec fn to_english_result(body: Seq<char>) -> Result<ToEnglishView, Error> {
    let v = to_english_of(body);
    if v.examples.len() > 0 || v.meanings.len() > 0 {
        Ok(v)
    } else {
        Err(Error::NoTranslationResults)
    }
}

/// The pronunciation that a phonetic element gives.
fn phonetic(el: &str) -> (r: Option<String>)
    ensures
        r.deep_view() == phonetic_of(el@),
{
    let t = inner_text(el);
    let unslashed = strip(t.as_str(), CharSet::Only('/'));
    nonempty_text(trim(unslashed.as_str()))
}

/// The meaning that a `word-exp` element gives.
fn meaning(el: &str) -> (r: Option<Meaning>)
    ensures
        r.deep_view() == meaning_of(el@),
{
    match first_text_in(el, DEFINITIONS) {
        Some(t) => {
            let definitions = split_and_trim(t.as_str(), '；');
            let part_of_speech = first_text_in(el, PART_OF_SPEECH);
            Some(Meaning { part_of_speech, definitions })
        },
        None => None,
    }
}

/// The example pairs as English (source) and Chinese (target).
fn examples_from_source(pairs: Vec<ExamplePair>) -> (r: Vec<Example>)
    ensures
        r.deep_view() == pairs.deep_view(),
{
    let mut r: Vec<Example> = Vec::new();
    let mut i: usize = 0;
    while i < pairs.len()
        invariant
            i <= pairs.len(),
            r.deep_view() =~= pairs.deep_view().take(i as int),
        decreases pairs.len() - i,
    {
        let ex = Example { en: pairs[i].source.clone(), zh: pairs[i].target.clone() };
        let ghost before = r.deep_view();
        r.push(ex);
        proof {
            assert(pairs.deep_view()[i as int] == pairs@[i as int].deep_view());
            assert(r.deep_view() =~= before.push(ex.deep_view()));
            assert(pairs.deep_view().take(i + 1) =~= pairs.deep_view().take(i as int).push(
                ex.deep_view(),
            ));
        }
        i = i + 1;
    }
    assert(pairs.deep_view().take(pairs.len() as int) =~= pairs.deep_view());
    r
}

/// The example pairs as Chinese (source) and English (target).
fn examples_from_target(pairs: Vec<ExamplePair>) -> (r: Vec<Example>)
    ensures
        r.deep_view() == pairs.deep_view().map_values(|p: (Seq<char>, Seq<char>)| (p.1, p.0)),
{
    let ghost want = pairs.deep_view().map_values(|p: (Seq<char>, Seq<char>)| (p.1, p.0));
    let mut r: Vec<Example> = Vec::new();
    let mut i: usize = 0;
    while i < pairs.len()
        invariant
            i <= pairs.len(),
            want == pairs.deep_view().map_values(|p: (Seq<char>, Seq<char>)| (p.1, p.0)),
            r.deep_view() =~= want.take(i as int),
        decreases pairs.len() - i,
    {
        let ex = Example { en: pairs[i].target.clone(), zh: pairs[i].source.clone() };
        let ghost before = r.deep_view();
        r.push(ex);
        proof {
            assert(pairs.deep_view()[i as int] == pairs@[i as int].deep_view());
            assert(r.deep_view() =~= before.push(ex.deep_view()));
            assert(want.take(i + 1) =~= want.take(i as int).push(ex.deep_view()));
        }
        i = i + 1;
    }
    assert(want.take(pairs.len() as int) =~= want);
    r
}

impl EnglishParser for DictPage {
    fn to_chinese(&self) -> (r: Result<ToChinese, Error>)
        ensures
            r is Ok <==> from_english_found(from_english(self@)),
            r matches Ok(v) ==> v.deep_view() == from_english(self@),
            r matches Err(e) ==> e == Error::NoTranslationResults,
    {
        let body = self.content();
        let input_text = self.child_text(WORD);

        let phones = select_all(body, PRONUNCIATION);
        proof {
            if phones.len() > 0 {
                assert(phones.deep_view()[0] == phones@[0]@);
            }
            if phones.len() > 1 {
                assert(phones.deep_view()[1] == phones@[1]@);
            }
        }
        let uk = if phones.len() > 0 {
            phonetic(phones[0].as_str())
        } else {
            None
        };
        let us = if phones.len() > 1 {
            phonetic(phones[1].as_str())
        } else {
            None
        };
        let pronunciation = Pronunciation { uk, us };

        let elements = select_all(body, MEANINGS);
        let ghost found = elements.deep_view().map_values(|el: Seq<char>| meaning_of(el));
        let mut meanings: Vec<Meaning> = Vec::new();
        let mut i: usize = 0;
        while i < elements.len()
            invariant
                i <= elements.len(),
                found == elements.deep_view().map_values(|el: Seq<char>| meaning_of(el)),
                meanings.deep_view() == somes(found.take(i as int)),
            decreases elements.len() - i,
        {
            proof {
                lemma_somes_step(found, i as int);
                assert(elements.deep_view()[i as int] == elements@[i as int]@);
            }
            match meaning(elements[i].as_str()) {
                Some(m) => {
                    let ghost before = meanings.deep_view();
                    meanings.push(m);
                    assert(meanings.deep_view() =~= before.push(m.deep_view()));
                },
                None => {},
            }
            i = i + 1;
        }
        assert(found.take(elements.len() as int) =~= found);

        let lists = select_all(body, EXAM_LIST);
        let exams = if lists.len() > 0 {
            proof {
                assert(lists.deep_view()[0] == lists@[0]@);
            }
            nonblank_texts_in(lists[0].as_str(), EXAM)
        } else {
            Vec::new()
        };

        let examples = examples_from_source(extract_examples(body));

        if examples.len() == 0 && meanings.len() == 0 && pronunciation.uk.is_none()
            && pronunciation.us.is_none() {
            return Err(Error::NoTranslationResults);
        }
        let r = ToChinese { input_text, pronunciation, meanings, examples, exams };
        assert(r.input_text@ == from_english(self@).input_text);
        assert(r.pronunciation.deep_view() == from_english(self@).pronunciation);
        assert(r.meanings.deep_view() == from_english(self@).meanings);
        assert(r.examples.deep_view() == from_english(self@).examples);
        assert(r.exams.deep_view() == from_english(self@).exams);
        Ok(r)
    }

    fn to_english(&self) -> (r: Result<ToEnglish, Error>)
        ensures
            r is Ok <==> (to_english_of(self@).examples.len() > 0
                || to_english_of(self@).meanings.len() > 0),
            r matches Ok(v) ==> v.deep_view() == to_english_of(self@),
            r matches Err(e) ==> e == Error::NoTranslationResults,
    {
        let body = self.content();
        let input_text = self.child_text(WORD);
        let meanings = nonblank_texts_in(body, POINT);
        let examples = examples_from_target(extract_examples(body));
        if examples.len() == 0 && meanings.len() == 0 {
            return Err(Error::NoTranslationResults);
        }
        Ok(ToEnglish { input_text, meanings, examples })
    }
}

} // verus!
