//! What the readers keep of a page: every element that gives a text, in
//! page order, and nothing else.

use crate::html::document_selection;
use crate::lookup::cached_kind;
use crate::parse::example::{
    examples_of, EXAMPLE_ITEM, EXAMPLE_MODULE, EXAMPLE_SOURCE, EXAMPLE_TARGET,
};
use crate::parse::{
    child_text_of, en, first_text, ja, ko, first_text_or_empty, select, somes, suggestions_of, texts_of, MAYBE_CONTAINER, MAYBE_WORD,
};
use crate::rdict::{script_outcome, TranslationDataView};
use crate::legacy;
use super::choices::law_nonblank_keeps_nonempty;
use vstd::prelude::*;

verus! {

/// Keeping the values that `f` gives, where `f` gives the value `g(x)` when
/// it satisfies `pred` and nothing otherwise, keeps exactly the values of
/// `g` that satisfy `pred`, in order.
pub proof fn lemma_somes_filter<A, B>(
    s: Seq<A>,
    f: spec_fn(A) -> Option<B>,
    g: spec_fn(A) -> B,
    pred: spec_fn(B) -> bool,
)
    requires
        forall|x: A| #[trigger] f(x) == (if pred(g(x)) {
            Some(g(x))
        } else {
            None
        }),
    ensures
        somes(s.map_values(f)) == s.map_values(g).filter(pred),
    decreases s.len(),
{
    reveal(Seq::filter);
    if s.len() > 0 {
        lemma_somes_filter(s.drop_last(), f, g, pred);
        assert(s.map_values(f).drop_last() =~= s.drop_last().map_values(f));
        assert(s.map_values(g).drop_last() =~= s.drop_last().map_values(g));
        assert(s.map_values(f).last() == f(s.last()));
        assert(s.map_values(g).last() == g(s.last()));
    }
}

/// The English translations of a Chinese to English page are the texts of
/// all its `.trans-container .basic .col2 .point` elements that hold a
/// character, in page order.
pub proof fn law_english_translations(body: Seq<char>)
    ensures
        en::to_english_of(body).meanings == texts_of(select(body, en::POINT@)).filter(
            |t: Seq<char>| t.len() > 0,
        ),
{
    law_nonblank_keeps_nonempty(texts_of(select(body, en::POINT@)));
}

/// The exams of an English to Chinese page are the texts of all the exam
/// entries of its first exam list that hold a character, in page order; none
/// without an exam list.
pub proof fn law_english_exams(body: Seq<char>)
    ensures
        select(body, en::EXAM_LIST@).len() == 0 ==> en::exams_of(body) == Seq::<Seq<char>>::empty(),
        select(body, en::EXAM_LIST@).len() > 0 ==> en::exams_of(body) == texts_of(
            select(select(body, en::EXAM_LIST@)[0], en::EXAM@),
        ).filter(|t: Seq<char>| t.len() > 0),
{
    if select(body, en::EXAM_LIST@).len() > 0 {
        law_nonblank_keeps_nonempty(texts_of(select(select(body, en::EXAM_LIST@)[0], en::EXAM@)));
    }
}

/// The suggestions of a page are the texts of all the suggested words of
/// its first `div.maybe` element that hold a character, in page order; none
/// without such an element.
pub proof fn law_all_suggestions(body: Seq<char>)
    ensures
        select(body, MAYBE_CONTAINER@).len() == 0 ==> suggestions_of(body) == Seq::<
            Seq<char>,
        >::empty(),
        select(body, MAYBE_CONTAINER@).len() > 0 ==> suggestions_of(body) == texts_of(
            select(select(body, MAYBE_CONTAINER@)[0], MAYBE_WORD@),
        ).filter(|t: Seq<char>| t.len() > 0),
{
    if select(body, MAYBE_CONTAINER@).len() > 0 {
        law_nonblank_keeps_nonempty(
            texts_of(select(select(body, MAYBE_CONTAINER@)[0], MAYBE_WORD@)),
        );
    }
}

/// The two texts of an example item.
pub open spec fn item_texts(item: Seq<char>) -> (Seq<char>, Seq<char>) {
    (first_text_or_empty(item, EXAMPLE_SOURCE@), first_text_or_empty(item, EXAMPLE_TARGET@))
}

/// The examples of a page are the text pairs of all the items of its first
/// example module whose two texts both hold a character, in page order;
/// none without an example module.
pub proof fn law_all_examples(body: Seq<char>)
    ensures
        select(body, EXAMPLE_MODULE@).len() == 0 ==> examples_of(body) == Seq::<
            (Seq<char>, Seq<char>),
        >::empty(),
        select(body, EXAMPLE_MODULE@).len() > 0 ==> examples_of(body) == select(
            select(body, EXAMPLE_MODULE@)[0],
            EXAMPLE_ITEM@,
        ).map_values(|item: Seq<char>| item_texts(item)).filter(
            |p: (Seq<char>, Seq<char>)| p.0.len() > 0 && p.1.len() > 0,
        ),
{
    if select(body, EXAMPLE_MODULE@).len() > 0 {
        let items = select(select(body, EXAMPLE_MODULE@)[0], EXAMPLE_ITEM@);
        lemma_somes_filter(
            items,
            |item: Seq<char>| crate::parse::example::pair_of_item(item),
            |item: Seq<char>| item_texts(item),
            |p: (Seq<char>, Seq<char>)| p.0.len() > 0 && p.1.len() > 0,
        );
    }
}

/// The translations that the first generation reads from a Chinese to
/// English document are the texts of all its points that hold a character,
/// in document order.
pub proof fn law_legacy_translations(html: Seq<char>)
    ensures
        legacy::english_of(html).translations == texts_of(
            document_selection(html, legacy::POINT@),
        ).filter(|t: Seq<char>| t.len() > 0),
{
    law_nonblank_keeps_nonempty(texts_of(document_selection(html, legacy::POINT@)));
}

/// What a fetch finds for a script is of the kind that a cache read answers
/// for that script, and a stored translation answers for one script only.
pub proof fn law_cache_kind_follows_fetch(body: Seq<char>, chinese: bool, v: TranslationDataView)
    ensures
        script_outcome(body, chinese) matches Ok(w) ==> (!(w is NotFound) ==> cached_kind(
            w,
            chinese,
        )),
        !(cached_kind(v, true) && cached_kind(v, false)),
{
}

/// The Chinese senses of a Japanese to Chinese page are all its sense texts
/// that hold a character and are not the word itself, in page order.
pub proof fn law_japanese_senses(body: Seq<char>)
    ensures
        ja::from_japanese(body).meanings == ja::sense_texts(body).filter(
            |t: Seq<char>| t.len() > 0 && t != child_text_of(body, ja::WORD@),
        ),
{
    let word = child_text_of(body, ja::WORD@);
    lemma_somes_filter(
        ja::sense_texts(body),
        |t: Seq<char>| ja::sense_of(t, word),
        |t: Seq<char>| t,
        |t: Seq<char>| t.len() > 0 && t != word,
    );
    assert(ja::sense_texts(body).map_values(|t: Seq<char>| t) =~= ja::sense_texts(body));
}

/// The definitions of a numbered Korean list are all its pieces between the
/// digits `1` to `9`, trimmed and without leading dots, that hold a
/// character, in order.
pub proof fn law_korean_numbered_pieces(raw: Seq<char>)
    ensures
        ko::numbered_definitions(raw) == crate::text::pieces(raw, crate::text::CharSet::NonzeroDigit)
            .map_values(
            |p: Seq<char>|
                crate::text::stripped_start(
                    crate::text::trimmed(p),
                    crate::text::CharSet::Only('.'),
                ),
        ).filter(|t: Seq<char>| t.len() > 0),
{
    lemma_somes_filter(
        crate::text::pieces(raw, crate::text::CharSet::NonzeroDigit),
        |p: Seq<char>| ko::numbered_definition(p),
        |p: Seq<char>|
            crate::text::stripped_start(crate::text::trimmed(p), crate::text::CharSet::Only('.')),
        |t: Seq<char>| t.len() > 0,
    );
}

/// What a Korean entry item gives: its part of speech without the brackets,
/// its numbered definitions, and its example.
pub open spec fn kc_entry(item: Seq<char>) -> ko::MeaningView {
    (
        match first_text(item, ko::KC_PART_OF_SPEECH@) {
            Some(t) => ko::unbracketed(t, '【', '】'),
            None => None,
        },
        ko::numbered_definitions(first_text_or_empty(item, ko::KC_KEY@)),
        ko::example_of(item),
    )
}

/// The meanings of a Korean to Chinese page are the entries of all its
/// `ul.tran-cont > li.mcols` items that have at least one definition, in
/// page order.
pub proof fn law_korean_entries(body: Seq<char>)
    ensures
        ko::from_korean(body).meanings == select(body, ko::KC_MEANING@).map_values(
            |item: Seq<char>| kc_entry(item),
        ).filter(|m: ko::MeaningView| m.1.len() > 0),
{
    lemma_somes_filter(
        select(body, ko::KC_MEANING@),
        |item: Seq<char>| ko::kc_meaning_of(item),
        |item: Seq<char>| kc_entry(item),
        |m: ko::MeaningView| m.1.len() > 0,
    );
}

} // verus!
