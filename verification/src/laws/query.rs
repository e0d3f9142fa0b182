//! A form-encoded query reads back as exactly the pairs it was made of.

use crate::model::{
    form_encoded, form_encoded_byte, form_encoded_text, form_pair, form_query, hex_digit,
    is_unreserved, voice_url, VOICE_URL,
};
use crate::parse::joined;
use crate::text::{pieces, rejoined, CharSet};
use super::{law_form_encoding_separators, lemma_joined_front};
use vstd::prelude::*;
use vstd::utf8::{decode_utf8, encode_utf8};

verus! {

/// The value of the hexadecimal digit `c`.
pub open spec fn hex_value(c: char) -> int {
    let n = c as u32;
    if 0x30 <= n <= 0x39 {
        n - 0x30
    } else if 0x41 <= n <= 0x46 {
        n - 0x37
    } else if 0x61 <= n <= 0x66 {
        n - 0x57
    } else {
        0
    }
}

/// The bytes that the form-encoded text `s` stands for: `+` a space, `%XX`
/// the byte `XX`, any other character its own code.
pub open spec fn form_decoded_bytes(s: Seq<char>) -> Seq<u8>
    decreases s.len(),
{
    if s.len() == 0 {
        Seq::empty()
    } else if s[0] == '+' {
        seq![0x20u8] + form_decoded_bytes(s.drop_first())
    } else if s[0] == '%' && s.len() >= 3 {
        seq![(hex_value(s[1]) * 16 + hex_value(s[2])) as u8] + form_decoded_bytes(
            s.subrange(3, s.len() as int),
        )
    } else {
        seq![s[0] as u8] + form_decoded_bytes(s.drop_first())
    }
}

/// The text that the form-encoded text `s` stands for.
pub open spec fn form_decoded(s: Seq<char>) -> Seq<char> {
    decode_utf8(form_decoded_bytes(s))
}

/// The text before the first `=` of `p`, or all of it.
pub open spec fn pair_name(p: Seq<char>) -> Seq<char> {
    pieces(p, CharSet::Only('='))[0]
}

/// The text after the first `=` of `p`, or nothing.
pub open spec fn pair_value(p: Seq<char>) -> Seq<char> {
    rejoined(pieces(p, CharSet::Only('=')).drop_first(), '=')
}

/// The pairs of the query `q`: its pieces between `&`, each read as a name
/// before its first `=` and a value after it, both form-decoded.
pub open spec fn query_pairs(q: Seq<char>) -> Seq<(Seq<char>, Seq<char>)> {
    pieces(q, CharSet::Only('&')).map_values(
        |p: Seq<char>| (form_decoded(pair_name(p)), form_decoded(pair_value(p))),
    )
}

proof fn lemma_decode_byte(b: u8, rest: Seq<char>)
    ensures
        form_decoded_bytes(form_encoded_byte(b) + rest) == seq![b] + form_decoded_bytes(rest),
{
    let t = form_encoded_byte(b) + rest;
    if is_unreserved(b) {
        assert(t[0] == b as char);
        assert((b as char) as u8 == b);
        assert(t.drop_first() =~= rest);
    } else if b == 0x20 {
        assert(t[0] == '+');
        assert(t.drop_first() =~= rest);
    } else {
        let hi = b / 16;
        let lo = b % 16;
        assert(t[0] == '%');
        assert(t[1] == hex_digit(hi));
        assert(t[2] == hex_digit(lo));
        assert(hex_value(hex_digit(hi)) == hi);
        assert(hex_value(hex_digit(lo)) == lo);
        assert(t.subrange(3, t.len() as int) =~= rest);
        assert(((hi * 16 + lo) as u8) == b);
    }
}

proof fn lemma_decode_bytes(bytes: Seq<u8>)
    ensures
        form_decoded_bytes(form_encoded(bytes)) == bytes,
    decreases bytes.len(),
{
    let parts = bytes.map_values(|b: u8| form_encoded_byte(b));
    if bytes.len() == 0 {
        assert(form_encoded(bytes) =~= Seq::<char>::empty());
    } else {
        lemma_joined_front(parts);
        let rest = bytes.drop_first();
        assert(parts.drop_first() =~= rest.map_values(|b: u8| form_encoded_byte(b)));
        lemma_decode_bytes(rest);
        lemma_decode_byte(bytes[0], form_encoded(rest));
        assert(bytes =~= seq![bytes[0]] + rest);
    }
}

/// Form-decoding a form-encoded text gives the text back.
pub proof fn lemma_form_round_trip(t: Seq<char>)
    ensures
        form_decoded(form_encoded_text(t)) == t,
{
    lemma_decode_bytes(encode_utf8(t));
    vstd::utf8::encode_utf8_decode_utf8(t);
}

/// `s` holds no `c`.
pub open spec fn lacks(s: Seq<char>, c: char) -> bool {
    forall|k: int| 0 <= k < s.len() ==> #[trigger] s[k] != c
}

proof fn lemma_pieces_extend(a: Seq<char>, b: Seq<char>, sep: char)
    requires
        lacks(b, sep),
    ensures
        pieces(a + b, CharSet::Only(sep)) == pieces(a, CharSet::Only(sep)).update(
            pieces(a, CharSet::Only(sep)).len() - 1,
            pieces(a, CharSet::Only(sep)).last() + b,
        ),
    decreases b.len(),
{
    crate::text::lemma_pieces_nonempty(a, CharSet::Only(sep));
    let pa = pieces(a, CharSet::Only(sep));
    if b.len() == 0 {
        assert(a + b =~= a);
        assert(pa.last() + b =~= pa.last());
        assert(pa.update(pa.len() - 1, pa.last()) =~= pa);
    } else {
        let b0 = b.drop_last();
        assert(lacks(b0, sep)) by {
            assert forall|k: int| 0 <= k < b0.len() implies #[trigger] b0[k] != sep by {
                assert(b0[k] == b[k]);
            }
        }
        lemma_pieces_extend(a, b0, sep);
        assert((a + b).drop_last() =~= a + b0);
        assert((a + b).last() == b.last());
        assert(b.last() == b[b.len() - 1]);
        let p0 = pieces(a + b0, CharSet::Only(sep));
        assert(b.last() != sep);
        assert(!crate::text::in_set(CharSet::Only(sep), (a + b).last()));
        assert(p0.len() == pa.len());
        assert(p0.last() =~= pa.last() + b0);
        assert(pieces(a + b, CharSet::Only(sep)) == p0.update(p0.len() - 1, p0.last().push(b.last())));
        let x = p0.last().push(b.last());
        assert(x =~= pa.last() + b);
        assert(p0.update(p0.len() - 1, x) =~= pa.update(pa.len() - 1, x));
    }
}

/// Splitting at `sep` what was joined with `sep`, from parts without `sep`,
/// gives the parts back.
pub proof fn lemma_split_rejoined(ps: Seq<Seq<char>>, sep: char)
    requires
        ps.len() > 0,
        forall|i: int| 0 <= i < ps.len() ==> lacks(#[trigger] ps[i], sep),
    ensures
        pieces(rejoined(ps, sep), CharSet::Only(sep)) == ps,
    decreases ps.len(),
{
    if ps.len() == 1 {
        assert(lacks(ps[0], sep));
        lemma_pieces_extend(Seq::empty(), ps[0], sep);
        assert(Seq::<char>::empty() + ps[0] =~= ps[0]);
        assert(pieces(Seq::<char>::empty(), CharSet::Only(sep)) =~= seq![Seq::<char>::empty()]);
        assert(Seq::<char>::empty() + ps[0] =~= ps[0]);
        assert(seq![Seq::<char>::empty()].update(0, Seq::<char>::empty() + ps[0]) =~= ps);
    } else {
        let init = ps.drop_last();
        assert forall|i: int| 0 <= i < init.len() implies lacks(#[trigger] init[i], sep) by {
            assert(init[i] == ps[i]);
        }
        lemma_split_rejoined(init, sep);
        let a = rejoined(init, sep).push(sep);
        assert(lacks(ps.last(), sep)) by {
            assert(ps.last() == ps[ps.len() - 1]);
        }
        lemma_pieces_extend(a, ps.last(), sep);
        assert(a.drop_last() =~= rejoined(init, sep));
        let pa = pieces(a, CharSet::Only(sep));
        assert(pa == init.push(Seq::<char>::empty()));
        assert(Seq::<char>::empty() + ps.last() =~= ps.last());
        assert(pa.update(pa.len() - 1, pa.last() + ps.last()) =~= ps);
    }
}

proof fn lemma_encoded_lacks(t: Seq<char>)
    ensures
        lacks(form_encoded_text(t), '&'),
        lacks(form_encoded_text(t), '='),
{
    law_form_encoding_separators(t);
}

proof fn lemma_pair_round_trip(p: (Seq<char>, Seq<char>))
    ensures
        lacks(form_pair(p), '&'),
        form_decoded(pair_name(form_pair(p))) == p.0,
        form_decoded(pair_value(form_pair(p))) == p.1,
{
    let k = form_encoded_text(p.0);
    let v = form_encoded_text(p.1);
    lemma_encoded_lacks(p.0);
    lemma_encoded_lacks(p.1);
    reveal_strlit("=");
    assert(form_pair(p) =~= k + seq!['='] + v);
    assert forall|i: int| 0 <= i < form_pair(p).len() implies #[trigger] form_pair(p)[i] != '&' by {
        if i < k.len() {
            assert(form_pair(p)[i] == k[i]);
        } else if i > k.len() {
            assert(form_pair(p)[i] == v[i - k.len() - 1]);
        }
    }
    let parts = seq![k, v];
    assert forall|i: int| 0 <= i < parts.len() implies lacks(#[trigger] parts[i], '=') by {}
    lemma_split_rejoined(parts, '=');
    assert(parts.drop_last() =~= seq![k]);
    assert(rejoined(seq![k], '=') == k);
    assert(parts.last() == v);
    assert(rejoined(parts, '=') == rejoined(seq![k], '=').push('=') + v);
    assert(rejoined(parts, '=') =~= form_pair(p));
    assert(pieces(form_pair(p), CharSet::Only('=')) == parts);
    assert(parts.drop_first() =~= seq![v]);
    lemma_form_round_trip(p.0);
    lemma_form_round_trip(p.1);
}

/// Reading a form-encoded query of at least one pair gives back exactly its
/// pairs, in order, whatever characters their names and values hold.
pub proof fn law_form_query_round_trip(pairs: Seq<(Seq<char>, Seq<char>)>)
    requires
        pairs.len() > 0,
    ensures
        query_pairs(form_query(pairs)) == pairs,
{
    let parts = pairs.map_values(|p: (Seq<char>, Seq<char>)| form_pair(p));
    assert forall|i: int| 0 <= i < parts.len() implies lacks(#[trigger] parts[i], '&') by {
        lemma_pair_round_trip(pairs[i]);
    }
    lemma_split_rejoined(parts, '&');
    assert forall|i: int| 0 <= i < pairs.len() implies #[trigger] query_pairs(form_query(pairs))[i]
        == pairs[i] by {
        lemma_pair_round_trip(pairs[i]);
        assert(parts[i] == form_pair(pairs[i]));
    }
    assert(query_pairs(form_query(pairs)) =~= pairs);
}

/// The address of a recording is the service address, `?`, and a query that
/// reads back as exactly `audio` set to the text, then the given pairs in
/// order.
pub proof fn law_voice_url_query(text: Seq<char>, params: Seq<(Seq<char>, Seq<char>)>)
    ensures
        voice_url(text, params) == VOICE_URL@ + "?"@ + form_query(seq![("audio"@, text)] + params),
        query_pairs(form_query(seq![("audio"@, text)] + params)) == seq![("audio"@, text)] + params,
{
    law_form_query_round_trip(seq![("audio"@, text)] + params);
}

} // verus!
