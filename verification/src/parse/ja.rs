//! Japanese to Chinese (`newjc`) and Chinese to Japanese (`cj`) pages.

use super::example::{examples_of, extract_examples};
use super::{
    child_text_of, first_text, first_text_in, first_text_or_empty, first_text_or_empty_in,
    joined, lemma_joined_step, lemma_somes_step, nonempty, nonempty_text, select, select_all,
    somes, texts_of, texts_of_all, DictPage, ExamplePair,
};
use crate::text::{chars_of, is_blank, push_char, strip, stripped, CharSet};
use crate::Error;
use vstd::prelude::*;

verus! {

/// Reading the Japanese dictionary pages.
pub trait JapaneseParser {
    /// Reads a Japanese to Chinese page.
    fn to_chinese(&self) -> Result<ToChinese, Error>;

    /// Reads a Chinese to Japanese page.
    fn to_japanese(&self) -> Result<ToJapanese, Error>;
}

/// A Japanese sentence and its Chinese translation.
#[derive(Debug, Default, Clone, PartialEq, Eq)]
pub struct Example {
    pub ja: String,
    pub zh: String,
}

impl DeepView for Example {
    type V = (Seq<char>, Seq<char>);

    open spec fn deep_view(&self) -> Self::V {
        (self.ja@, self.zh@)
    }
}

/// A reading in kana and in romaji.
#[derive(Debug, Default, Clone, PartialEq, Eq)]
pub struct Pronunciation {
    pub kana: String,
    pub romaji: String,
}

impl DeepView for Pronunciation {
    type V = (Seq<char>, Seq<char>);

    open spec fn deep_view(&self) -> Self::V {
        (self.kana@, self.romaji@)
    }
}

/// A Japanese word explained in Chinese.
#[derive(Debug, Default, Clone, PartialEq, Eq)]
pub struct ToChinese {
    pub input_text: String,
    pub pronunciation: Option<Pronunciation>,
    pub meanings: Vec<String>,
    pub part_of_speech: Option<String>,
    pub exam: Option<String>,
    pub examples: Vec<Example>,
}

/// The model of a `ToChinese`.
pub struct ToChineseView {
    pub input_text: Seq<char>,
    pub pronunciation: Option<(Seq<char>, Seq<char>)>,
    pub meanings: Seq<Seq<char>>,
    pub part_of_speech: Option<Seq<char>>,
    pub exam: Option<Seq<char>>,
    pub examples: Seq<(Seq<char>, Seq<char>)>,
}

impl DeepView for ToChinese {
    type V = ToChineseView;

    open spec fn deep_view(&self) -> ToChineseView {
        ToChineseView {
            input_text: self.input_text@,
            pronunciation: self.pronunciation.deep_view(),
            meanings: self.meanings.deep_view(),
            part_of_speech: self.part_of_speech.deep_view(),
            exam: self.exam.deep_view(),
            examples: self.examples.deep_view(),
        }
    }
}

/// A Japanese word that translates the Chinese word, with its explanation.
#[derive(Debug, Default, Clone, PartialEq, Eq)]
pub struct Meaning {
    pub point: String,
    pub definition: String,
}

impl DeepView for Meaning {
    type V = (Seq<char>, Seq<char>);

    open spec fn deep_view(&self) -> Self::V {
        (self.point@, self.definition@)
    }
}

/// A Chinese word translated to Japanese.
#[derive(Debug, Default, Clone, PartialEq, Eq)]
pub struct ToJapanese {
    pub input_text: String,
    pub meanings: Vec<Meaning>,
    pub examples: Vec<Example>,
}

/// The model of a `ToJapanese`.
pub struct ToJapaneseView {
    pub input_text: Seq<char>,
    pub meanings: Seq<(Seq<char>, Seq<char>)>,
    pub examples: Seq<(Seq<char>, Seq<char>)>,
}

impl DeepView for ToJapanese {
    type V = ToJapaneseView;

    open spec fn deep_view(&self) -> ToJapaneseView {
        ToJapaneseView {
            input_text: self.input_text@,
            meanings: self.meanings.deep_view(),
            examples: self.examples.deep_view(),
        }
    }
}

pub const WORD: &'static str = "div.word-head div.title";

pub const KANA: &'static str = "div.head-content > span:not(.divider):not(.tone)";

pub const ROMAJI: &'static str = "div.head-content > span.tone";

pub const SENSE: &'static str = "div.each-sense";

pub const SENSE_TEXT: &'static str = "div.sense-con div.sense-ja";

pub const PART_OF_SPEECH: &'static str = "div.pos-line div.word-pos";

pub const EXAM: &'static str = "div.label";

pub const MEANINGS: &'static str = "div.cj_data_list";

pub const POINT: &'static str = "a.point";

pub const JMSY: &'static str = "div.cj_jmsy";

/// The circled digits `⓪` and `①` to `⑩` that mark the pitch accent of a kana
/// reading.
pub open spec fn is_accent_mark(c: char) -> bool {
    0x2460 <= c as u32 <= 0x2469 || c as u32 == 0x24EA
}

/// `s` without its accent marks.
pub open spec fn without_accent_marks(s: Seq<char>) -> Seq<char> {
    somes(s.map_values(|c: char| if is_accent_mark(c) { None } else { Some(c) }))
}

/// A nonempty text, when there is one.
pub open spec fn nonempty_opt(t: Option<Seq<char>>) -> Option<Seq<char>> {
    match t {
        Some(t) => nonempty(t),
        None => None,
    }
}

/// The senses that a Japanese to Chinese page lists, in order.
pub open spec fn sense_texts(body: Seq<char>) -> Seq<Seq<char>> {
    joined(
        select(body, SENSE@).map_values(|sense: Seq<char>| texts_of(select(sense, SENSE_TEXT@))),
    )
}

/// `Some(t)` for a nonempty sense `t` that is not the word itself.
pub open spec fn sense_of(t: Seq<char>, word: Seq<char>) -> Option<Seq<char>> {
    if t.len() > 0 && t != word {
        Some(t)
    } else {
        None
    }
}

/// What a Japanese to Chinese page says.
pub open spec fn from_japanese(body: Seq<char>) -> ToChineseView {
    let word = child_text_of(body, WORD@);
    let kana = match first_text(body, KANA@) {
        Some(t) => nonempty(without_accent_marks(t)),
        None => None,
    };
    let romaji = nonempty_opt(first_text(body, ROMAJI@));
    ToChineseView {
        input_text: word,
        pronunciation: match (kana, romaji) {
            (Some(k), Some(r)) => Some((k, r)),
            _ => None,
        },
        meanings: somes(sense_texts(body).map_values(|t: Seq<char>| sense_of(t, word))),
        part_of_speech: match first_text(body, PART_OF_SPEECH@) {
            Some(t) => nonempty(
                stripped(stripped(t, CharSet::Only('[')), CharSet::Only(']')),
            ),
            None => None,
        },
        exam: nonempty_opt(first_text(body, EXAM@)),
        examples: examples_of(body),
    }
}

/// The meaning that a `cj_data_list` element gives, when its explanation
/// is nonempty.
pub open spec fn meaning_of(el: Seq<char>) -> Option<(Seq<char>, Seq<char>)> {
    let definition = first_text_or_empty(el, JMSY@);
    if definition.len() > 0 {
        Some((first_text_or_empty(el, POINT@), definition))
    } else {
        None
    }
}

/// What a Chinese to Japanese page says: examples read the other way round.
pub open spec fn to_japanese_of(body: Seq<char>) -> ToJapaneseView {
    ToJapaneseView {
        input_text: child_text_of(body, WORD@),
        meanings: somes(select(body, MEANINGS@).map_values(|el: Seq<char>| meaning_of(el))),
        examples: examples_of(body).map_values(|p: (Seq<char>, Seq<char>)| (p.1, p.0)),
    }
}

/// The outcome of reading a Japanese to Chinese page.
pub open spec fn from_japanese_result(body: Seq<char>) -> Result<ToChineseView, Error> {
    if from_japanese(body).meanings.len() > 0 {
        Ok(from_japanese(body))
    } else {
        Err(Error::NoTranslationResults)
    }
}

/// The outcome of reading a Chinese to Japanese page.
pub open spec fn to_japanese_result(body: Seq<char>) -> Result<ToJapaneseView, Error> {
    if to_japanese_of(body).meanings.len() > 0 {
        Ok(to_japanese_of(body))
    } else {
        Err(Error::NoTranslationResults)
    }
}

/// `t` without its accent marks.
pub fn remove_accent_marks(t: &String) -> (r: String)
    ensures
        r@ == without_accent_marks(t@),
{
    let v = chars_of(t.as_str());
    let ghost kept = v@.map_values(|c: char| if is_accent_mark(c) { None } else { Some(c) });
    let mut r = String::new();
    let mut i: usize = 0;
    while i < v.len()
        invariant
            i <= v.len(),
            kept == v@.map_values(|c: char| if is_accent_mark(c) { None } else { Some(c) }),
            r@ == somes(kept.take(i as int)),
        decreases v.len() - i,
    {
        proof {
            lemma_somes_step(kept, i as int);
        }
        let c = v[i];
        let n: u32 = c as u32;
        if !((0x2460 <= n && n <= 0x2469) || n == 0x24EA) {
            push_char(&mut r, c);
        }
        i = i + 1;
    }
    assert(kept.take(v.len() as int) =~= kept);
    r
}

/// A nonempty text, when there is one.
fn nonempty_in(t: Option<String>) -> (r: Option<String>)
    ensures
        r.deep_view() == nonempty_opt(t.deep_view()),
{
    match t {
        Some(t) => nonempty_text(t),
        None => None,
    }
}

/// The example pairs as Japanese (source) and Chinese (target), or the other
/// way round when `swapped`.
fn examples_from(pairs: Vec<ExamplePair>, swapped: bool) -> (r: Vec<Example>)
    ensures
        !swapped ==> r.deep_view() == pairs.deep_view(),
        swapped ==> r.deep_view() == pairs.deep_view().map_values(
            |p: (Seq<char>, Seq<char>)| (p.1, p.0),
        ),
{
    let ghost want = if swapped {
        pairs.deep_view().map_values(|p: (Seq<char>, Seq<char>)| (p.1, p.0))
    } else {
        pairs.deep_view()
    };
    let mut r: Vec<Example> = Vec::new();
    let mut i: usize = 0;
    while i < pairs.len()
        invariant
            i <= pairs.len(),
            want == if swapped {
                pairs.deep_view().map_values(|p: (Seq<char>, Seq<char>)| (p.1, p.0))
            } else {
                pairs.deep_view()
            },
            r.deep_view() =~= want.take(i as int),
        decreases pairs.len() - i,
    {
        let ex = if swapped {
            Example { ja: pairs[i].target.clone(), zh: pairs[i].source.clone() }
        } else {
            Example { ja: pairs[i].source.clone(), zh: pairs[i].target.clone() }
        };
        let ghost before = r.deep_view();
        r.push(ex);
        proof {
            assert(pairs.deep_view()[i as int] == pairs@[i as int].deep_view());
            assert(r.deep_view() =~= before.push(ex.deep_view()));
            assert(want.take(i + 1) =~= want.take(i as int).push(ex.deep_view()));
        }
        i = i + 1;
    }
    assert(want.take(pairs.len() as int) =~= want);
    r
}

/// The senses of the page, in order.
fn senses(body: &str) -> (r: Vec<String>)
    ensures
        r.deep_view() == sense_texts(body@),
{
    let elements = select_all(body, SENSE);
    let ghost groups = elements.deep_view().map_values(
        |sense: Seq<char>| texts_of(select(sense, SENSE_TEXT@)),
    );
    let mut r: Vec<String> = Vec::new();
    let mut i: usize = 0;
    while i < elements.len()
        invariant
            i <= elements.len(),
            groups == elements.deep_view().map_values(
                |sense: Seq<char>| texts_of(select(sense, SENSE_TEXT@)),
            ),
            r.deep_view() == joined(groups.take(i as int)),
        decreases elements.len() - i,
    {
        proof {
            lemma_joined_step(groups, i as int);
            assert(elements.deep_view()[i as int] == elements@[i as int]@);
        }
        let mut texts = texts_of_all(&select_all(elements[i].as_str(), SENSE_TEXT));
        let ghost before = r.deep_view();
        let ghost added = texts.deep_view();
        r.append(&mut texts);
        assert(r.deep_view() =~= before + added);
        i = i + 1;
    }
    assert(groups.take(elements.len() as int) =~= groups);
    r
}

impl JapaneseParser for DictPage {
    fn to_chinese(&self) -> (r: Result<ToChinese, Error>)
        ensures
            r is Ok <==> from_japanese(self@).meanings.len() > 0,
            r matches Ok(v) ==> v.deep_view() == from_japanese(self@),
            r matches Err(e) ==> e == Error::NoTranslationResults,
    {
        let body = self.content();
        let input_text = self.child_text(WORD);

        let kana = match first_text_in(body, KANA) {
            Some(t) => nonempty_text(remove_accent_marks(&t)),
            None => None,
        };
        let romaji = nonempty_in(first_text_in(body, ROMAJI));
        let pronunciation = match (kana, romaji) {
            (Some(kana), Some(romaji)) => Some(Pronunciation { kana, romaji }),
            _ => None,
        };

        let part_of_speech = match first_text_in(body, PART_OF_SPEECH) {
            Some(t) => {
                let opened = strip(t.as_str(), CharSet::Only('['));
                nonempty_text(strip(opened.as_str(), CharSet::Only(']')))
            },
            None => None,
        };

        let exam = nonempty_in(first_text_in(body, EXAM));

        let all = senses(body);
        let ghost word = input_text@;
        let ghost kept = all.deep_view().map_values(|t: Seq<char>| sense_of(t, word));
        let mut meanings: Vec<String> = Vec::new();
        let mut i: usize = 0;
        while i < all.len()
            invariant
                i <= all.len(),
                word == input_text@,
                kept == all.deep_view().map_values(|t: Seq<char>| sense_of(t, word)),
                meanings.deep_view() == somes(kept.take(i as int)),
            decreases all.len() - i,
        {
            proof {
                lemma_somes_step(kept, i as int);
                assert(all.deep_view()[i as int] == all@[i as int]@);
            }
            let t = all[i].clone();
            if !is_blank(&t) && !(t == input_text) {
                let ghost before = meanings.deep_view();
                meanings.push(t);
                assert(meanings.deep_view() =~= before.push(t@));
            }
            i = i + 1;
        }
        assert(kept.take(all.len() as int) =~= kept);

        if meanings.len() == 0 {
            return Err(Error::NoTranslationResults);
        }

        let examples = examples_from(extract_examples(body), false);
        let r = ToChinese {
            input_text,
            pronunciation,
            meanings,
            part_of_speech,
            exam,
            examples,
        };
        assert(r.pronunciation.deep_view() == from_japanese(self@).pronunciation);
        assert(r.meanings.deep_view() == from_japanese(self@).meanings);
        assert(r.examples.deep_view() == from_japanese(self@).examples);
        Ok(r)
    }

    fn to_japanese(&self) -> (r: Result<ToJapanese, Error>)
        ensures
            r is Ok <==> to_japanese_of(self@).meanings.len() > 0,
            r matches Ok(v) ==> v.deep_view() == to_japanese_of(self@),
            r matches Err(e) ==> e == Error::NoTranslationResults,
    {
        let body = self.content();
        let input_text = self.child_text(WORD);

        let elements = select_all(body, MEANINGS);
        let ghost found = elements.deep_view().map_values(|el: Seq<char>| meaning_of(el));
        let mut meanings: Vec<Meaning> = Vec::new();
        let mut i: usize = 0;
        while i < elements.len()
            invariant
                i <= elements.len(),
                found == elements.deep_view().map_values(|el: Seq<char>| meaning_of(el)),
                meanings.deep_view() == somes(found.take(i as int)),
            decreases elements.len() - i,
        {
            proof {
                lemma_somes_step(found, i as int);
                assert(elements.deep_view()[i as int] == elements@[i as int]@);
            }
            let point = first_text_or_empty_in(elements[i].as_str(), POINT);
            let definition = first_text_or_empty_in(elements[i].as_str(), JMSY);
            if !is_blank(&definition) {
                let m = Meaning { point, definition };
                let ghost before = meanings.deep_view();
                meanings.push(m);
                assert(meanings.deep_view() =~= before.push(m.deep_view()));
            }
            i = i + 1;
        }
        assert(found.take(elements.len() as int) =~= found);

        if meanings.len() == 0 {
            return Err(Error::NoTranslationResults);
        }

        let examples = examples_from(extract_examples(body), true);
        let r = ToJapanese { input_text, meanings, examples };
        assert(r.meanings.deep_view() == to_japanese_of(self@).meanings);
        assert(r.examples.deep_view() == to_japanese_of(self@).examples);
        Ok(r)
    }
}

} // verus!
