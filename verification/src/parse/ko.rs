//! Korean to Chinese (`kc`) and Chinese to Korean (`ck`) pages.

use super::example::{examples_of, extract_examples};
use super::{
    child_text_of, first_text, first_text_in, first_text_or_empty, first_text_or_empty_in,
    inner_text, joined, keep_nonblank, lemma_joined_step, lemma_somes_step, nonblank, nonempty,
    nonempty_text, select, select_all, somes, split_and_trim, text_of, texts_of, texts_of_all,
    trimmed_pieces, DictPage, ExamplePair,
};
use crate::text::{
    is_blank, pieces, split, strip, strip_start, stripped, stripped_start, trim, trimmed, CharSet,
};
use crate::Error;
use vstd::prelude::*;

verus! {

/// Reading the Korean dictionary pages.
pub trait KoreanParser {
    /// Reads a Korean to Chinese page.
    fn to_chinese(&self) -> Result<ToChinese, Error>;

    /// Reads a Chinese to Korean page.
    fn to_korean(&self) -> Result<ToKorean, Error>;
}

/// A Korean word explained in Chinese.
#[derive(Debug, Default, Clone, PartialEq, Eq)]
pub struct ToChinese {
    pub input_text: String,
    pub meanings: Vec<Meaning>,
}

/// The model of a `ToChinese`.
pub struct ToChineseView {
    pub input_text: Seq<char>,
    pub meanings: Seq<MeaningView>,
}

impl DeepView for ToChinese {
    type V = ToChineseView;

    open spec fn deep_view(&self) -> ToChineseView {
        ToChineseView { input_text: self.input_text@, meanings: self.meanings.deep_view() }
    }
}

/// The definitions of the word as one part of speech, with an example.
#[derive(Debug, Default, Clone, PartialEq, Eq)]
pub struct Meaning {
    pub part_of_speech: Option<String>,
    pub definitions: Vec<String>,
    pub example: Option<Example>,
}

/// The model of a `Meaning`: part of speech, definitions, example.
pub type MeaningView = (Option<Seq<char>>, Seq<Seq<char>>, Option<(Seq<char>, Seq<char>)>);

impl DeepView for Meaning {
    type V = MeaningView;

    open spec fn deep_view(&self) -> MeaningView {
        (self.part_of_speech.deep_view(), self.definitions.deep_view(), self.example.deep_view())
    }
}

/// A Korean sentence and its Chinese translation.
#[derive(Debug, Default, Clone, PartialEq, Eq)]
pub struct Example {
    pub ko: String,
    pub zh: String,
}

impl DeepView for Example {
    type V = (Seq<char>, Seq<char>);

    open spec fn deep_view(&self) -> Self::V {
        (self.ko@, self.zh@)
    }
}

/// A Chinese word translated to Korean.
#[derive(Debug, Default, Clone, PartialEq, Eq)]
pub struct ToKorean {
    pub input_text: String,
    pub meanings: Vec<Meaning>,
    pub examples: Vec<Example>,
}

/// The model of a `ToKorean`.
pub struct ToKoreanView {
    pub input_text: Seq<char>,
    pub meanings: Seq<MeaningView>,
    pub examples: Seq<(Seq<char>, Seq<char>)>,
}

impl DeepView for ToKorean {
    type V = ToKoreanView;

    open spec fn deep_view(&self) -> ToKoreanView {
        ToKoreanView {
            input_text: self.input_text@,
            meanings: self.meanings.deep_view(),
            examples: self.examples.deep_view(),
        }
    }
}

pub const WORD: &'static str = ".word-head div.title";

pub const KC_MEANING: &'static str = "ul.tran-cont > li.mcols";

pub const KC_PART_OF_SPEECH: &'static str = "span.kcPos";

pub const KC_KEY: &'static str = "span.kcKey";

pub const KC_EXAMPLE: &'static str = "li.secondary";

pub const KC_EXAMPLE_P: &'static str = "p";

pub const CK_KEY: &'static str = "ul.tran-cont li.mcols p.ckKey";

pub const CK_MEANING_GROUP: &'static str = "div.trans-container > ul.tran-cont";

pub const CK_PART_OF_SPEECH: &'static str = "div.trans-container > div.pos";

/// A text without the brackets `open` and `close` around it, when nonempty.
pub open spec fn unbracketed(t: Seq<char>, open: char, close: char) -> Option<Seq<char>> {
    nonempty(stripped(stripped(t, CharSet::Only(open)), CharSet::Only(close)))
}

/// A definition of a numbered list: the piece trimmed, without its leading
/// dots, when nonempty.
pub open spec fn numbered_definition(piece: Seq<char>) -> Option<Seq<char>> {
    nonempty(stripped_start(trimmed(piece), CharSet::Only('.')))
}

/// The definitions of a numbered list such as `1.a 2.b`: the pieces between
/// the digits `1` to `9`.
pub open spec fn numbered_definitions(raw: Seq<char>) -> Seq<Seq<char>> {
    somes(
        pieces(raw, CharSet::NonzeroDigit).map_values(|p: Seq<char>| numbered_definition(p)),
    )
}

/// The example of a meaning: the first two paragraphs of its first example
/// element, when it has two.
pub open spec fn example_of(item: Seq<char>) -> Option<(Seq<char>, Seq<char>)> {
    let found = select(item, KC_EXAMPLE@);
    if found.len() > 0 {
        let paragraphs = texts_of(select(found[0], KC_EXAMPLE_P@));
        if paragraphs.len() >= 2 {
            Some((paragraphs[0], paragraphs[1]))
        } else {
            None
        }
    } else {
        None
    }
}

/// The meaning that a `li.mcols` item gives, when it has definitions.
pub open spec fn kc_meaning_of(item: Seq<char>) -> Option<MeaningView> {
    let definitions = numbered_definitions(first_text_or_empty(item, KC_KEY@));
    if definitions.len() > 0 {
        Some(
            (
                match first_text(item, KC_PART_OF_SPEECH@) {
                    Some(t) => unbracketed(t, '【', '】'),
                    None => None,
                },
                definitions,
                example_of(item),
            ),
        )
    } else {
        None
    }
}

/// What a Korean to Chinese page says.
pub open spec fn from_korean(body: Seq<char>) -> ToChineseView {
    ToChineseView {
        input_text: child_text_of(body, WORD@),
        meanings: somes(
            select(body, KC_MEANING@).map_values(|item: Seq<char>| kc_meaning_of(item)),
        ),
    }
}

/// The definitions of a group of a Chinese to Korean page.
pub open spec fn ck_definitions(group: Seq<char>) -> Seq<Seq<char>> {
    nonblank(
        joined(
            select(group, CK_KEY@).map_values(|key: Seq<char>| trimmed_pieces(text_of(key), '；')),
        ),
    )
}

/// The meaning that the `i`-th group gives, when it has definitions. The
/// first group has no part of speech; the group `i > 0` has the one of the
/// `(i - 1)`-th part-of-speech element, if there is one.
pub open spec fn ck_meaning_of(body: Seq<char>, i: int, group: Seq<char>) -> Option<MeaningView> {
    let kinds = select(body, CK_PART_OF_SPEECH@);
    let definitions = ck_definitions(group);
    if definitions.len() > 0 {
        Some(
            (
                if i > 0 && i - 1 < kinds.len() {
                    unbracketed(text_of(kinds[i - 1]), '[', ']')
                } else {
                    None
                },
                definitions,
                None,
            ),
        )
    } else {
        None
    }
}

/// What a Chinese to Korean page says: examples read the other way round.
pub open spec fn to_korean_of(body: Seq<char>) -> ToKoreanView {
    ToKoreanView {
        input_text: child_text_of(body, WORD@),
        meanings: somes(
            select(body, CK_MEANING_GROUP@).map(
                |i: int, group: Seq<char>| ck_meaning_of(body, i, group),
            ),
        ),
        examples: examples_of(body).map_values(|p: (Seq<char>, Seq<char>)| (p.1, p.0)),
    }
}

/// The outcome of reading a Korean to Chinese page.
pub open spec fn from_korean_result(body: Seq<char>) -> Result<ToChineseView, Error> {
    if from_korean(body).meanings.len() > 0 {
        Ok(from_korean(body))
    } else {
        Err(Error::NoTranslationResults)
    }
}

/// The outcome of reading a Chinese to Korean page.
pub open spec fn to_korean_result(body: Seq<char>) -> Result<ToKoreanView, Error> {
    if to_korean_of(body).meanings.len() > 0 {
        Ok(to_korean_of(body))
    } else {
        Err(Error::NoTranslationResults)
    }
}

/// `t` without the brackets `open` and `close` around it, when nonempty.
pub fn unbracket(t: &String, open: char, close: char) -> (r: Option<String>)
    ensures
        r.deep_view() == unbracketed(t@, open, close),
{
    let opened = strip(t.as_str(), CharSet::Only(open));
    nonempty_text(strip(opened.as_str(), CharSet::Only(close)))
}

/// The definitions of a numbered list.
pub fn numbered(raw: &String) -> (r: Vec<String>)
    ensures
        r.deep_view() == numbered_definitions(raw@),
{
    let parts = split(raw.as_str(), CharSet::NonzeroDigit);
    let ghost kept = parts.deep_view().map_values(|p: Seq<char>| numbered_definition(p));
    let mut r: Vec<String> = Vec::new();
    let mut i: usize = 0;
    while i < parts.len()
        invariant
            i <= parts.len(),
            parts.deep_view() == pieces(raw@, CharSet::NonzeroDigit),
            kept == parts.deep_view().map_values(|p: Seq<char>| numbered_definition(p)),
            r.deep_view() == somes(kept.take(i as int)),
        decreases parts.len() - i,
    {
        proof {
            lemma_somes_step(kept, i as int);
            assert(parts.deep_view()[i as int] == parts@[i as int]@);
        }
        let t = trim(parts[i].as_str());
        let d = strip_start(t.as_str(), CharSet::Only('.'));
        if !is_blank(&d) {
            let ghost before = r.deep_view();
            r.push(d);
            assert(r.deep_view() =~= before.push(d@));
        }
        i = i + 1;
    }
    assert(kept.take(parts.len() as int) =~= kept);
    r
}

/// The example of a meaning item.
fn example(item: &str) -> (r: Option<Example>)
    ensures
        r.deep_view() == example_of(item@),
{
    let found = select_all(item, KC_EXAMPLE);
    if found.len() == 0 {
        return None;
    }
    proof {
        assert(found.deep_view()[0] == found@[0]@);
    }
    let paragraphs = texts_of_all(&select_all(found[0].as_str(), KC_EXAMPLE_P));
    if paragraphs.len() >= 2 {
        proof {
            assert(paragraphs.deep_view()[0] == paragraphs@[0]@);
            assert(paragraphs.deep_view()[1] == paragraphs@[1]@);
        }
        Some(Example { ko: paragraphs[0].clone(), zh: paragraphs[1].clone() })
    } else {
        None
    }
}

/// The meaning of a `li.mcols` item.
fn kc_meaning(item: &str) -> (r: Option<Meaning>)
    ensures
        r.deep_view() == kc_meaning_of(item@),
{
    let part_of_speech = match first_text_in(item, KC_PART_OF_SPEECH) {
        Some(t) => unbracket(&t, '【', '】'),
        None => None,
    };
    let raw = first_text_or_empty_in(item, KC_KEY);
    let definitions = numbered(&raw);
    let example = example(item);
    if definitions.len() > 0 {
        Some(Meaning { part_of_speech, definitions, example })
    } else {
        None
    }
}

/// The definitions of a group of a Chinese to Korean page.
fn ck_group_definitions(group: &str) -> (r: Vec<String>)
    ensures
        r.deep_view() == ck_definitions(group@),
{
    let keys = select_all(group, CK_KEY);
    let ghost parts = keys.deep_view().map_values(
        |key: Seq<char>| trimmed_pieces(text_of(key), '；'),
    );
    let mut all: Vec<String> = Vec::new();
    let mut i: usize = 0;
    while i < keys.len()
        invariant
            i <= keys.len(),
            parts == keys.deep_view().map_values(
                |key: Seq<char>| trimmed_pieces(text_of(key), '；'),
            ),
            all.deep_view() == joined(parts.take(i as int)),
        decreases keys.len() - i,
    {
        proof {
            lemma_joined_step(parts, i as int);
            assert(keys.deep_view()[i as int] == keys@[i as int]@);
        }
        let t = inner_text(keys[i].as_str());
        let mut pieces_of_key = split_and_trim(t.as_str(), '；');
        let ghost before = all.deep_view();
        let ghost added = pieces_of_key.deep_view();
        all.append(&mut pieces_of_key);
        assert(all.deep_view() =~= before + added);
        i = i + 1;
    }
    assert(parts.take(keys.len() as int) =~= parts);
    keep_nonblank(all)
}

/// The example pairs as Chinese (source) and Korean (target).
fn examples_from_target(pairs: Vec<ExamplePair>) -> (r: Vec<Example>)
    ensures
        r.deep_view() == pairs.deep_view().map_values(|p: (Seq<char>, Seq<char>)| (p.1, p.0)),
{
    let ghost want = pairs.deep_view().map_values(|p: (Seq<char>, Seq<char>)| (p.1, p.0));
    let mut r: Vec<Example> = Vec::new();
    let mut i: usize = 0;
    while i < pairs.len()
        invariant
            i <= pairs.len(),
            want == pairs.deep_view().map_values(|p: (Seq<char>, Seq<char>)| (p.1, p.0)),
            r.deep_view() =~= want.take(i as int),
        decreases pairs.len() - i,
    {
        let ex = Example { ko: pairs[i].target.clone(), zh: pairs[i].source.clone() };
        let ghost before = r.deep_view();
        r.push(ex);
        proof {
            assert(pairs.deep_view()[i as int] == pairs@[i as int].deep_view());
            assert(r.deep_view() =~= before.push(ex.deep_view()));
            assert(want.take(i + 1) =~= want.take(i as int).push(ex.deep_view()));
        }
        i = i + 1;
    }
    assert(want.take(pairs.len() as int) =~= want);
    r
}

impl KoreanParser for DictPage {
    fn to_chinese(&self) -> (r: Result<ToChinese, Error>)
        ensures
            r is Ok <==> from_korean(self@).meanings.len() > 0,
            r matches Ok(v) ==> v.deep_view() == from_korean(self@),
            r matches Err(e) ==> e == Error::NoTranslationResults,
    {
        let body = self.content();
        let input_text = self.child_text(WORD);

        let items = select_all(body, KC_MEANING);
        let ghost found = items.deep_view().map_values(|item: Seq<char>| kc_meaning_of(item));
        let mut meanings: Vec<Meaning> = Vec::new();
        let mut i: usize = 0;
        while i < items.len()
            invariant
                i <= items.len(),
                found == items.deep_view().map_values(|item: Seq<char>| kc_meaning_of(item)),
                meanings.deep_view() == somes(found.take(i as int)),
            decreases items.len() - i,
        {
            proof {
                lemma_somes_step(found, i as int);
                assert(items.deep_view()[i as int] == items@[i as int]@);
            }
            match kc_meaning(items[i].as_str()) {
                Some(m) => {
                    let ghost before = meanings.deep_view();
                    meanings.push(m);
                    assert(meanings.deep_view() =~= before.push(m.deep_view()));
                },
                None => {},
            }
            i = i + 1;
        }
        assert(found.take(items.len() as int) =~= found);

        if meanings.len() == 0 {
            return Err(Error::NoTranslationResults);
        }
        let r = ToChinese { input_text, meanings };
        assert(r.meanings.deep_view() == from_korean(self@).meanings);
        Ok(r)
    }

    fn to_korean(&self) -> (r: Result<ToKorean, Error>)
        ensures
            r is Ok <==> to_korean_of(self@).meanings.len() > 0,
            r matches Ok(v) ==> v.deep_view() == to_korean_of(self@),
            r matches Err(e) ==> e == Error::NoTranslationResults,
    {
        let body = self.content();
        let input_text = self.child_text(WORD);

        let kinds = select_all(body, CK_PART_OF_SPEECH);
        let groups = select_all(body, CK_MEANING_GROUP);
        let ghost found = groups.deep_view().map(
            |i: int, group: Seq<char>| ck_meaning_of(body@, i, group),
        );
        let mut meanings: Vec<Meaning> = Vec::new();
        let mut i: usize = 0;
        while i < groups.len()
            invariant
                i <= groups.len(),
                body@ == self@,
                kinds.deep_view() == select(body@, CK_PART_OF_SPEECH@),
                found == groups.deep_view().map(
                    |i: int, group: Seq<char>| ck_meaning_of(body@, i, group),
                ),
                meanings.deep_view() == somes(found.take(i as int)),
            decreases groups.len() - i,
        {
            proof {
                lemma_somes_step(found, i as int);
                assert(groups.deep_view()[i as int] == groups@[i as int]@);
                if i > 0 && i - 1 < kinds.len() {
                    assert(kinds.deep_view()[i - 1] == kinds@[i - 1]@);
                }
            }
            let part_of_speech = if i > 0 && i - 1 < kinds.len() {
                unbracket(&inner_text(kinds[i - 1].as_str()), '[', ']')
            } else {
                None
            };
            let definitions = ck_group_definitions(groups[i].as_str());
            if definitions.len() > 0 {
                let m = Meaning { part_of_speech, definitions, example: None };
                let ghost before = meanings.deep_view();
                meanings.push(m);
                assert(meanings.deep_view() =~= before.push(m.deep_view()));
            }
            i = i + 1;
        }
        assert(found.take(groups.len() as int) =~= found);

        if meanings.len() == 0 {
            return Err(Error::NoTranslationResults);
        }

        let examples = examples_from_target(extract_examples(body));
        let r = ToKorean { input_text, meanings, examples };
        assert(r.meanings.deep_view() == to_korean_of(self@).meanings);
        assert(r.examples.deep_view() == to_korean_of(self@).examples);
        Ok(r)
    }
}

} // verus!
