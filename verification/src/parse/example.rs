//! Example sentences, which every direction of the dictionary lays out alike.

use super::{
    first_text_or_empty, first_text_or_empty_in, lemma_somes_step, select, select_all, somes,
    ExamplePair,
};
use crate::text::is_blank;
use vstd::prelude::*;

verus! {

pub const EXAMPLE_MODULE: &'static str = "div.blng_sents_part.dict-module";

pub const EXAMPLE_ITEM: &'static str = "li.mcols-layout";

pub const EXAMPLE_SOURCE: &'static str = "div.sen-eng";

pub const EXAMPLE_TARGET: &'static str = "div.sen-ch";

/// The pair an example item gives: both texts, when neither is empty.
pub open spec fn pair_of_item(item: Seq<char>) -> Option<(Seq<char>, Seq<char>)> {
    let source = first_text_or_empty(item, EXAMPLE_SOURCE@);
    let target = first_text_or_empty(item, EXAMPLE_TARGET@);
    if source.len() > 0 && target.len() > 0 {
        Some((source, target))
    } else {
        None
    }
}

/// The example pairs of the page body `body`: those of the items of its
/// first example module, each item whose two texts are both nonempty.
pub open spec fn examples_of(body: Seq<char>) -> Seq<(Seq<char>, Seq<char>)> {
    let modules = select(body, EXAMPLE_MODULE@);
    if modules.len() == 0 {
        Seq::empty()
    } else {
        somes(select(modules[0], EXAMPLE_ITEM@).map_values(|item: Seq<char>| pair_of_item(item)))
    }
}

/// Extracts the example sentence pairs of the page body `body`.
///
/// `sen-eng` gives the `source`, `sen-ch` the `target`; each direction of
/// translation decides which of them is which language.
pub fn extract_examples(body: &str) -> (r: Vec<ExamplePair>)
    ensures
        r.deep_view() == examples_of(body@),
{
    let mut examples: Vec<ExamplePair> = Vec::new();
    let modules = select_all(body, EXAMPLE_MODULE);
    if modules.len() == 0 {
        return examples;
    }
    proof {
        assert(modules.deep_view()[0] == modules@[0]@);
    }
    let items = select_all(modules[0].as_str(), EXAMPLE_ITEM);
    let ghost pairs = items.deep_view().map_values(|item: Seq<char>| pair_of_item(item));
    let mut i: usize = 0;
    while i < items.len()
        invariant
            i <= items.len(),
            pairs == items.deep_view().map_values(|item: Seq<char>| pair_of_item(item)),
            examples.deep_view() == somes(pairs.take(i as int)),
        decreases items.len() - i,
    {
        proof {
            lemma_somes_step(pairs, i as int);
            assert(items.deep_view()[i as int] == items@[i as int]@);
        }
        let source = first_text_or_empty_in(items[i].as_str(), EXAMPLE_SOURCE);
        let target = first_text_or_empty_in(items[i].as_str(), EXAMPLE_TARGET);
        if !is_blank(&source) && !is_blank(&target) {
            let ghost before = examples.deep_view();
            let pair = ExamplePair { source, target };
            examples.push(pair);
            assert(examples.deep_view() =~= before.push(pair.deep_view()));
        }
        i = i + 1;
    }
    assert(pairs.take(items.len() as int) =~= pairs);
    examples
}

} // verus!
