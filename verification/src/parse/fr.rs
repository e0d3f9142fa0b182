//! French to Chinese (`fc`) and Chinese to French (`cf`) pages.

use super::example::{examples_of, extract_examples};
use super::{
    child_text_of, first_text, first_text_in, inner_text, joined, keep_nonblank,
    lemma_joined_step, nonblank, nonblank_texts, nonblank_texts_in, nonempty, nonempty_text,
    select, select_all, split_and_trim, text_of, trimmed_pieces, DictPage, ExamplePair,
};
use crate::text::{is_blank, strip, stripped, trim, trimmed, CharSet};
use crate::Error;
use vstd::prelude::*;

verus! {

/// Reading the French dictionary pages.
pub trait FrenchParser {
    /// Reads a French to Chinese page.
    fn to_chinese(&self) -> Result<ToChinese, Error>;

    /// Reads a Chinese to French page.
    fn to_french(&self) -> Result<ToFrench, Error>;
}

/// A French sentence and its Chinese translation.
#[derive(Debug, Default, Clone, PartialEq, Eq)]
pub struct Example {
    pub fr: String,
    pub zh: String,
}

impl DeepView for Example {
    type V = (Seq<char>, Seq<char>);

    open spec fn deep_view(&self) -> Self::V {
        (self.fr@, self.zh@)
    }
}

/// A French word explained in Chinese.
#[derive(Debug, Default, Clone, PartialEq, Eq)]
pub struct ToChinese {
    pub input_text: String,
    pub pronunciation: Option<String>,
    pub meanings: Vec<String>,
    pub examples: Vec<Example>,
}

/// The model of a `ToChinese`.
pub struct ToChineseView {
    pub input_text: Seq<char>,
    pub pronunciation: Option<Seq<char>>,
    pub meanings: Seq<Seq<char>>,
    pub examples: Seq<(Seq<char>, Seq<char>)>,
}

impl DeepView for ToChinese {
    type V = ToChineseView;

    open spec fn deep_view(&self) -> ToChineseView {
        ToChineseView {
            input_text: self.input_text@,
            pronunciation: self.pronunciation.deep_view(),
            meanings: self.meanings.deep_view(),
            examples: self.examples.deep_view(),
        }
    }
}

/// A Chinese word translated to French.
#[derive(Debug, Default, Clone, PartialEq, Eq)]
pub struct ToFrench {
    pub input_text: String,
    pub meanings: Vec<String>,
    pub examples: Vec<Example>,
}

/// The model of a `ToFrench`.
pub struct ToFrenchView {
    pub input_text: Seq<char>,
    pub meanings: Seq<Seq<char>>,
    pub examples: Seq<(Seq<char>, Seq<char>)>,
}

impl DeepView for ToFrench {
    type V = ToFrenchView;

    open spec fn deep_view(&self) -> ToFrenchView {
        ToFrenchView {
            input_text: self.input_text@,
            meanings: self.meanings.deep_view(),
            examples: self.examples.deep_view(),
        }
    }
}

pub const WORD: &'static str = "div.dict-module h4";

pub const PHONETIC: &'static str = "div.dict-module div.phone_con span.phonetic";

pub const DEFINITION: &'static str = "div.dict-module p.pos";

pub const POINT: &'static str = "div.dict-module li.each-word a.point";

/// The definitions that one definition text gives: its nonempty pieces
/// between `；`, trimmed.
pub open spec fn definitions_of(t: Seq<char>) -> Seq<Seq<char>> {
    if t.len() == 0 {
        Seq::empty()
    } else {
        nonblank(trimmed_pieces(t, '；'))
    }
}

/// What a French to Chinese page says.
pub open spec fn from_french(body: Seq<char>) -> ToChineseView {
    ToChineseView {
        input_text: child_text_of(body, WORD@),
        pronunciation: match first_text(body, PHONETIC@) {
            Some(t) => nonempty(trimmed(stripped(t, CharSet::Only('/')))),
            None => None,
        },
        meanings: joined(
            select(body, DEFINITION@).map_values(|el: Seq<char>| definitions_of(text_of(el))),
        ),
        examples: examples_of(body),
    }
}

/// What a Chinese to French page says: examples read the other way round.
pub open spec fn to_french_of(body: Seq<char>) -> ToFrenchView {
    ToFrenchView {
        input_text: child_text_of(body, WORD@),
        meanings: nonblank_texts(body, POINT@),
        examples: examples_of(body).map_values(|p: (Seq<char>, Seq<char>)| (p.1, p.0)),
    }
}

/// The outcome of reading a French to Chinese page.
pub open spec fn from_french_result(body: Seq<char>) -> Result<ToChineseView, Error> {
    if from_french(body).meanings.len() > 0 {
        Ok(from_french(body))
    } else {
        Err(Error::NoTranslationResults)
    }
}

/// The outcome of reading a Chinese to French page.
pub open spec fn to_french_result(body: Seq<char>) -> Result<ToFrenchView, Error> {
    if to_french_of(body).meanings.len() > 0 {
        Ok(to_french_of(body))
    } else {
        Err(Error::NoTranslationResults)
    }
}

/// The definitions that the text `t` of a definition element gives.
pub fn definitions(t: &String) -> (r: Vec<String>)
    ensures
        r.deep_view() == definitions_of(t@),
{
    if is_blank(t) {
        Vec::new()
    } else {
        keep_nonblank(split_and_trim(t.as_str(), '；'))
    }
}

/// The example pairs as French (source) and Chinese (target), or the other
/// way round when `swapped`.
fn examples_from(pairs: Vec<ExamplePair>, swapped: bool) -> (r: Vec<Example>)
    ensures
        !swapped ==> r.deep_view() == pairs.deep_view(),
        swapped ==> r.deep_view() == pairs.deep_view().map_values(
            |p: (Seq<char>, Seq<char>)| (p.1, p.0),
        ),
{
    let ghost want = if swapped {
        pairs.deep_view().map_values(|p: (Seq<char>, Seq<char>)| (p.1, p.0))
    } else {
        pairs.deep_view()
    };
    let mut r: Vec<Example> = Vec::new();
    let mut i: usize = 0;
    while i < pairs.len()
        invariant
            i <= pairs.len(),
            want == if swapped {
                pairs.deep_view().map_values(|p: (Seq<char>, Seq<char>)| (p.1, p.0))
            } else {
                pairs.deep_view()
            },
            r.deep_view() =~= want.take(i as int),
        decreases pairs.len() - i,
    {
        let ex = if swapped {
            Example { fr: pairs[i].target.clone(), zh: pairs[i].source.clone() }
        } else {
            Example { fr: pairs[i].source.clone(), zh: pairs[i].target.clone() }
        };
        let ghost before = r.deep_view();
        r.push(ex);
        proof {
            assert(pairs.deep_view()[i as int] == pairs@[i as int].deep_view());
            assert(r.deep_view() =~= before.push(ex.deep_view()));
            assert(want.take(i + 1) =~= want.take(i as int).push(ex.deep_view()));
        }
        i = i + 1;
    }
    assert(want.take(pairs.len() as int) =~= want);
    r
}

impl FrenchParser for DictPage {
    fn to_chinese(&self) -> (r: Result<ToChinese, Error>)
        ensures
            r is Ok <==> from_french(self@).meanings.len() > 0,
            r matches Ok(v) ==> v.deep_view() == from_french(self@),
            r matches Err(e) ==> e == Error::NoTranslationResults,
    {
        let body = self.content();
        let input_text = self.child_text(WORD);

        let pronunciation = match first_text_in(body, PHONETIC) {
            Some(t) => {
                let unslashed = strip(t.as_str(), CharSet::Only('/'));
                nonempty_text(trim(unslashed.as_str()))
            },
            None => None,
        };

        let elements = select_all(body, DEFINITION);
        let ghost groups = elements.deep_view().map_values(
            |el: Seq<char>| definitions_of(text_of(el)),
        );
        let mut meanings: Vec<String> = Vec::new();
        let mut i: usize = 0;
        while i < elements.len()
            invariant
                i <= elements.len(),
                groups == elements.deep_view().map_values(
                    |el: Seq<char>| definitions_of(text_of(el)),
                ),
                meanings.deep_view() == joined(groups.take(i as int)),
            decreases elements.len() - i,
        {
            proof {
                lemma_joined_step(groups, i as int);
                assert(elements.deep_view()[i as int] == elements@[i as int]@);
            }
            let mut defs = definitions(&inner_text(elements[i].as_str()));
            let ghost before = meanings.deep_view();
            let ghost added = defs.deep_view();
            meanings.append(&mut defs);
            assert(meanings.deep_view() =~= before + added);
            i = i + 1;
        }
        assert(groups.take(elements.len() as int) =~= groups);

        if meanings.len() == 0 {
            return Err(Error::NoTranslationResults);
        }

        let examples = examples_from(extract_examples(body), false);
        let r = ToChinese { input_text, pronunciation, meanings, examples };
        assert(r.meanings.deep_view() == from_french(self@).meanings);
        assert(r.examples.deep_view() == from_french(self@).examples);
        Ok(r)
    }

    fn to_french(&self) -> (r: Result<ToFrench, Error>)
        ensures
            r is Ok <==> to_french_of(self@).meanings.len() > 0,
            r matches Ok(v) ==> v.deep_view() == to_french_of(self@),
            r matches Err(e) ==> e == Error::NoTranslationResults,
    {
        let body = self.content();
        let input_text = self.child_text(WORD);
        let meanings = nonblank_texts_in(body, POINT);
        if meanings.len() == 0 {
            return Err(Error::NoTranslationResults);
        }
        let examples = examples_from(extract_examples(body), true);
        let r = ToFrench { input_text, meanings, examples };
        assert(r.examples.deep_view() == to_french_of(self@).examples);
        Ok(r)
    }
}

} // verus!
