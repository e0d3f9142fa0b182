//! Reading a dictionary result page: the page model, the queries the
//! parsers are built from, and the choice of parser.

pub mod en;
pub mod example;
pub mod fr;
pub mod ja;
pub mod ko;
pub mod selectors;

use crate::html::{
    children_of_fragment, document_selection, fragment_children, fragment_selection,
    fragment_text, select_in_document, select_in_fragment, text_of_fragment,
};
use crate::text::{is_blank, pieces, split, trim, trimmed, CharSet};
use crate::rdict::{TranslationData, TranslationDataView};
use crate::Error;
use vstd::prelude::*;

verus! {

// ---------------------------------------------------------------------------
// Sequences

/// The values held by the `Some` entries of `s`, in order.
pub open spec fn somes<T>(s: Seq<Option<T>>) -> Seq<T>
    decreases s.len(),
{
    if s.len() == 0 {
        Seq::empty()
    } else {
        let init = somes(s.drop_last());
        match s.last() {
            Some(x) => init.push(x),
            None => init,
        }
    }
}

/// The sequences of `s`, joined.
pub open spec fn joined<T>(s: Seq<Seq<T>>) -> Seq<T>
    decreases s.len(),
{
    if s.len() == 0 {
        Seq::empty()
    } else {
        joined(s.drop_last()) + s.last()
    }
}

/// `Some(t)` when `t` holds a character, `None` when it is empty.
pub open spec fn nonempty(t: Seq<char>) -> Option<Seq<char>> {
    if t.len() > 0 {
        Some(t)
    } else {
        None
    }
}

/// The entries of `s` that hold a character.
pub open spec fn nonblank(s: Seq<Seq<char>>) -> Seq<Seq<char>> {
    somes(s.map_values(|t: Seq<char>| nonempty(t)))
}

pub proof fn lemma_somes_step<T>(s: Seq<Option<T>>, i: int)
    requires
        0 <= i < s.len(),
    ensures
        somes(s.take(i + 1)) == match s[i] {
            Some(x) => somes(s.take(i)).push(x),
            None => somes(s.take(i)),
        },
{
    assert(s.take(i + 1).drop_last() =~= s.take(i));
}

pub proof fn lemma_joined_step<T>(s: Seq<Seq<T>>, i: int)
    requires
        0 <= i < s.len(),
    ensures
        joined(s.take(i + 1)) == joined(s.take(i)) + s[i],
{
    assert(s.take(i + 1).drop_last() =~= s.take(i));
}

// ---------------------------------------------------------------------------
// Queries on an element, held as its HTML

/// The elements of `el` that `css` matches.
pub open spec fn select(el: Seq<char>, css: Seq<char>) -> Seq<Seq<char>> {
    fragment_selection(el, css)
}

/// The text of `el`, trimmed.
pub open spec fn text_of(el: Seq<char>) -> Seq<char> {
    trimmed(fragment_text(el))
}

/// The texts of the elements `els`.
pub open spec fn texts_of(els: Seq<Seq<char>>) -> Seq<Seq<char>> {
    els.map_values(|e: Seq<char>| text_of(e))
}

/// The text of the first element of `el` that `css` matches, if any.
pub open spec fn first_text(el: Seq<char>, css: Seq<char>) -> Option<Seq<char>> {
    let found = select(el, css);
    if found.len() > 0 {
        Some(text_of(found[0]))
    } else {
        None
    }
}

/// The text of the first element of `el` that `css` matches, or the empty text.
pub open spec fn first_text_or_empty(el: Seq<char>, css: Seq<char>) -> Seq<char> {
    match first_text(el, css) {
        Some(t) => t,
        None => Seq::empty(),
    }
}

/// The nonempty texts of the elements of `el` that `css` matches.
pub open spec fn nonblank_texts(el: Seq<char>, css: Seq<char>) -> Seq<Seq<char>> {
    nonblank(texts_of(select(el, css)))
}

/// The text nodes among `children`, joined.
pub open spec fn own_text(children: Seq<Option<Seq<char>>>) -> Seq<char> {
    joined(somes(children))
}

/// The text nodes directly under the first element of `el` that `css`
/// matches, joined and trimmed; empty when nothing matches.
pub open spec fn child_text_of(el: Seq<char>, css: Seq<char>) -> Seq<char> {
    let found = select(el, css);
    if found.len() > 0 {
        trimmed(own_text(fragment_children(found[0])))
    } else {
        Seq::empty()
    }
}

/// The elements of `el` that `css` matches, as HTML.
pub fn select_all(el: &str, css: &str) -> (r: Vec<String>)
    ensures
        r.deep_view() == select(el@, css@),
{
    select_in_fragment(el, css)
}

/// The text of the element `el`, trimmed.
pub fn inner_text(el: &str) -> (r: String)
    ensures
        r@ == text_of(el@),
{
    let raw = text_of_fragment(el);
    trim(raw.as_str())
}

/// The text of the first element of `el` that `css` matches.
pub fn first_text_in(el: &str, css: &str) -> (r: Option<String>)
    ensures
        r.deep_view() == first_text(el@, css@),
{
    let found = select_all(el, css);
    if found.len() > 0 {
        proof {
            assert(found.deep_view()[0] == found@[0]@);
        }
        Some(inner_text(found[0].as_str()))
    } else {
        None
    }
}

/// The text of the first element of `el` that `css` matches, or the empty text.
pub fn first_text_or_empty_in(el: &str, css: &str) -> (r: String)
    ensures
        r@ == first_text_or_empty(el@, css@),
{
    match first_text_in(el, css) {
        Some(t) => t,
        None => String::new(),
    }
}

/// The texts of `els`.
pub fn texts_of_all(els: &Vec<String>) -> (r: Vec<String>)
    ensures
        r.deep_view() == texts_of(els.deep_view()),
{
    let mut r: Vec<String> = Vec::new();
    let mut i: usize = 0;
    while i < els.len()
        invariant
            i <= els.len(),
            r.deep_view() =~= texts_of(els.deep_view()).take(i as int),
        decreases els.len() - i,
    {
        let t = inner_text(els[i].as_str());
        let ghost before = r.deep_view();
        r.push(t);
        proof {
            assert(els.deep_view()[i as int] == els@[i as int]@);
            assert(r.deep_view() =~= before.push(t@));
            assert(texts_of(els.deep_view()).take(i + 1) =~= texts_of(els.deep_view()).take(
                i as int,
            ).push(t@));
        }
        i = i + 1;
    }
    assert(texts_of(els.deep_view()).take(els.len() as int) =~= texts_of(els.deep_view()));
    r
}

/// The entries of `items` that hold a character.
pub fn keep_nonblank(items: Vec<String>) -> (r: Vec<String>)
    ensures
        r.deep_view() == nonblank(items.deep_view()),
{
    let ghost opts = items.deep_view().map_values(|t: Seq<char>| nonempty(t));
    let mut r: Vec<String> = Vec::new();
    let mut i: usize = 0;
    let n = items.len();
    let mut items = items;
    let ghost all = items.deep_view();
    while i < n
        invariant
            i <= n == items.len(),
            items.deep_view() == all,
            opts == all.map_values(|t: Seq<char>| nonempty(t)),
            r.deep_view() == somes(opts.take(i as int)),
        decreases n - i,
    {
        proof {
            lemma_somes_step(opts, i as int);
        }
        let item = items[i].clone();
        if !is_blank(&item) {
            r.push(item);
        }
        i = i + 1;
    }
    assert(opts.take(n as int) =~= opts);
    r
}

/// The nonempty texts of the elements of `el` that `css` matches.
pub fn nonblank_texts_in(el: &str, css: &str) -> (r: Vec<String>)
    ensures
        r.deep_view() == nonblank_texts(el@, css@),
{
    let found = select_all(el, css);
    keep_nonblank(texts_of_all(&found))
}

/// The text nodes directly under the first element of `el` that `css`
/// matches, joined and trimmed.
pub fn child_text_in(el: &str, css: &str) -> (r: String)
    ensures
        r@ == child_text_of(el@, css@),
{
    let found = select_all(el, css);
    if found.len() == 0 {
        return String::new();
    }
    proof {
        assert(found.deep_view()[0] == found@[0]@);
    }
    let children = children_of_fragment(found[0].as_str());
    let ghost parts = children.deep_view();
    let mut joined_text = String::new();
    let mut i: usize = 0;
    while i < children.len()
        invariant
            i <= children.len(),
            parts == children.deep_view(),
            joined_text@ == joined(somes(parts.take(i as int))),
        decreases children.len() - i,
    {
        proof {
            lemma_somes_step(parts, i as int);
            let s = somes(parts.take(i as int));
            assert(s.push(parts[i as int]->0).drop_last() =~= s);
        }
        match &children[i] {
            Some(t) => {
                joined_text.append(t.as_str());
            },
            None => {},
        }
        i = i + 1;
    }
    assert(parts.take(children.len() as int) =~= parts);
    trim(joined_text.as_str())
}

/// `Some(t)` when `t` holds a character, `None` when it is empty.
pub fn nonempty_text(t: String) -> (r: Option<String>)
    ensures
        r.deep_view() == nonempty(t@),
{
    if is_blank(&t) {
        None
    } else {
        Some(t)
    }
}

/// The pieces of `t` between the occurrences of `sep`, each trimmed.
pub open spec fn trimmed_pieces(t: Seq<char>, sep: char) -> Seq<Seq<char>> {
    pieces(t, CharSet::Only(sep)).map_values(|p: Seq<char>| trimmed(p))
}

/// Splits `t` at each occurrence of `sep` and trims every piece.
pub fn split_and_trim(t: &str, sep: char) -> (r: Vec<String>)
    ensures
        r.deep_view() == trimmed_pieces(t@, sep),
{
    let parts = split(t, CharSet::Only(sep));
    let ghost want = trimmed_pieces(t@, sep);
    let mut r: Vec<String> = Vec::new();
    let mut i: usize = 0;
    while i < parts.len()
        invariant
            i <= parts.len(),
            parts.deep_view() == pieces(t@, CharSet::Only(sep)),
            want == trimmed_pieces(t@, sep),
            r.deep_view() =~= want.take(i as int),
        decreases parts.len() - i,
    {
        let piece = trim(parts[i].as_str());
        let ghost before = r.deep_view();
        r.push(piece);
        proof {
            assert(parts.deep_view()[i as int] == parts@[i as int]@);
            assert(r.deep_view() =~= before.push(piece@));
            assert(want.take(i + 1) =~= want.take(i as int).push(piece@));
        }
        i = i + 1;
    }
    assert(want.take(parts.len() as int) =~= want);
    r
}

// ---------------------------------------------------------------------------
// The page

/// A dictionary result page, held as the HTML of its results element.
pub struct DictPage(String);

impl View for DictPage {
    type V = Seq<char>;

    closed spec fn view(&self) -> Seq<char> {
        self.0@
    }
}

impl DictPage {
    /// The page whose results element holds `content`.
    pub fn new(content: String) -> (r: Self)
        ensures
            r@ == content@,
    {
        DictPage(content)
    }

    /// The page of the HTML document `html`: the first element of it that
    /// `selectors::BODY` matches, if there is one.
    pub fn from_document(html: &str) -> (r: Option<Self>)
        ensures
            r is Some <==> document_selection(html@, selectors::BODY@).len() > 0,
            r matches Some(p) ==> p@ == document_selection(html@, selectors::BODY@)[0],
    {
        let found = select_in_document(html, selectors::BODY);
        if found.len() == 0 {
            None
        } else {
            proof {
                assert(found.deep_view()[0] == found@[0]@);
            }
            let content = found[0].clone();
            Some(DictPage(content))
        }
    }

    /// The results element, as HTML.
    pub fn content(&self) -> (r: &str)
        ensures
            r@ == self@,
    {
        self.0.as_str()
    }

    /// The text nodes directly under the first element that `selector`
    /// matches, joined and trimmed; empty when nothing matches.
    pub fn child_text(&self, selector: &str) -> (r: String)
        ensures
            r@ == child_text_of(self@, selector@),
    {
        child_text_in(self.content(), selector)
    }

    /// The words that the page suggests in place of the one looked up.
    pub fn not_found(&self) -> (r: Result<NotFound, Error>)
        ensures
            r is Ok <==> suggestions_of(self@).len() > 0,
            r matches Ok(v) ==> v.deep_view() == suggestions_of(self@),
            r matches Err(e) ==> e == Error::NoTranslationResults,
    {
        let containers = select_all(self.content(), MAYBE_CONTAINER);
        let suggestions = if containers.len() > 0 {
            proof {
                assert(containers.deep_view()[0] == containers@[0]@);
            }
            nonblank_texts_in(containers[0].as_str(), MAYBE_WORD)
        } else {
            Vec::new()
        };
        if suggestions.len() > 0 {
            return Ok(NotFound { suggestions });
        }
        Err(Error::NoTranslationResults)
    }

    /// Whether the page holds a `div.{class}.dict-module` element.
    fn has_module(&self, class: &str) -> (r: bool)
        ensures
            r == has_module_of(self@, class@),
    {
        let mut css = String::from_str("div.");
        css.append(class);
        css.append(".dict-module");
        select_all(self.content(), css.as_str()).len() > 0
    }

    /// Whether the page holds a `div.page.{class}` element.
    fn has_page_mod(&self, class: &str) -> (r: bool)
        ensures
            r == has_page_of(self@, class@),
    {
        let mut css = String::from_str("div.page.");
        css.append(class);
        select_all(self.content(), css.as_str()).len() > 0
    }

    /// Reads the page with the parser of the dictionary module it holds: the
    /// first of `ec`, `ce`, `fc`, `cf`, `ck`, `kc`, `cj` that it holds, or
    /// else the Japanese one when it is a `newjc` page.
    pub fn parse_translation(&self) -> (r: Result<TranslationData, Error>)
        ensures
            r matches Ok(v) ==> translation_of(self@) == Ok::<TranslationDataView, Error>(
                v.deep_view(),
            ),
            r matches Err(e) ==> translation_of(self@) == Err::<TranslationDataView, Error>(e),
    {
        if self.has_module("ec") {
            match en::EnglishParser::to_chinese(self) {
                Ok(v) => Ok(TranslationData::FromEnglish(v)),
                Err(e) => Err(e),
            }
        } else if self.has_module("ce") {
            match en::EnglishParser::to_english(self) {
                Ok(v) => Ok(TranslationData::ToEnglish(v)),
                Err(e) => Err(e),
            }
        } else if self.has_module("fc") {
            match fr::FrenchParser::to_chinese(self) {
                Ok(v) => Ok(TranslationData::FromFrench(v)),
                Err(e) => Err(e),
            }
        } else if self.has_module("cf") {
            match fr::FrenchParser::to_french(self) {
                Ok(v) => Ok(TranslationData::ToFrench(v)),
                Err(e) => Err(e),
            }
        } else if self.has_module("ck") {
            match ko::KoreanParser::to_korean(self) {
                Ok(v) => Ok(TranslationData::ToKorean(v)),
                Err(e) => Err(e),
            }
        } else if self.has_module("kc") {
            match ko::KoreanParser::to_chinese(self) {
                Ok(v) => Ok(TranslationData::FromKorean(v)),
                Err(e) => Err(e),
            }
        } else if self.has_module("cj") {
            match ja::JapaneseParser::to_japanese(self) {
                Ok(v) => Ok(TranslationData::ToJapanese(v)),
                Err(e) => Err(e),
            }
        } else if self.has_page_mod("newjc") {
            match ja::JapaneseParser::to_chinese(self) {
                Ok(v) => Ok(TranslationData::FromJapanese(v)),
                Err(e) => Err(e),
            }
        } else {
            Err(Error::NoTranslationResults)
        }
    }
}

pub const MAYBE_CONTAINER: &'static str = "div.maybe";

pub const MAYBE_WORD: &'static str = "div.maybe_word a.point";

/// The nonempty suggestions of the first `div.maybe` element of the page.
pub open spec fn suggestions_of(body: Seq<char>) -> Seq<Seq<char>> {
    let containers = select(body, MAYBE_CONTAINER@);
    if containers.len() > 0 {
        nonblank_texts(containers[0], MAYBE_WORD@)
    } else {
        Seq::empty()
    }
}

/// Whether the page holds a `div.{class}.dict-module` element.
pub open spec fn has_module_of(body: Seq<char>, class: Seq<char>) -> bool {
    select(body, "div."@ + class + ".dict-module"@).len() > 0
}

/// Whether the page holds a `div.page.{class}` element.
pub open spec fn has_page_of(body: Seq<char>, class: Seq<char>) -> bool {
    select(body, "div.page."@ + class).len() > 0
}

/// A parser outcome as an outcome of reading the page.
pub open spec fn lift<T>(r: Result<T, Error>, f: spec_fn(T) -> TranslationDataView) -> Result<
    TranslationDataView,
    Error,
> {
    match r {
        Ok(v) => Ok(f(v)),
        Err(e) => Err(e),
    }
}

/// The outcome of reading the page with the parser of the module it holds.
pub open spec fn translation_of(body: Seq<char>) -> Result<TranslationDataView, Error> {
    if has_module_of(body, "ec"@) {
        lift(en::from_english_result(body), |v| TranslationDataView::FromEnglish(v))
    } else if has_module_of(body, "ce"@) {
        lift(en::to_english_result(body), |v| TranslationDataView::ToEnglish(v))
    } else if has_module_of(body, "fc"@) {
        lift(fr::from_french_result(body), |v| TranslationDataView::FromFrench(v))
    } else if has_module_of(body, "cf"@) {
        lift(fr::to_french_result(body), |v| TranslationDataView::ToFrench(v))
    } else if has_module_of(body, "ck"@) {
        lift(ko::to_korean_result(body), |v| TranslationDataView::ToKorean(v))
    } else if has_module_of(body, "kc"@) {
        lift(ko::from_korean_result(body), |v| TranslationDataView::FromKorean(v))
    } else if has_module_of(body, "cj"@) {
        lift(ja::to_japanese_result(body), |v| TranslationDataView::ToJapanese(v))
    } else if has_page_of(body, "newjc"@) {
        lift(ja::from_japanese_result(body), |v| TranslationDataView::FromJapanese(v))
    } else {
        Err(Error::NoTranslationResults)
    }
}

// ---------------------------------------------------------------------------
// Results shared by the parsers

/// What the page proposes when it has no translation.
#[derive(Debug, Default, Clone, PartialEq, Eq)]
pub struct NotFound {
    pub suggestions: Vec<String>,
}

impl DeepView for NotFound {
    type V = Seq<Seq<char>>;

    open spec fn deep_view(&self) -> Seq<Seq<char>> {
        self.suggestions.deep_view()
    }
}

/// A sentence and its translation.
#[derive(Debug, Default, Clone, PartialEq, Eq)]
pub struct ExamplePair {
    pub source: String,
    pub target: String,
}

impl DeepView for ExamplePair {
    type V = (Seq<char>, Seq<char>);

    open spec fn deep_view(&self) -> (Seq<char>, Seq<char>) {
        (self.source@, self.target@)
    }
}

} // verus!
