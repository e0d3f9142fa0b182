//! Languages, pronunciation recordings, and the kind of text looked up.

use crate::parse::joined;
use crate::text::rejoined;
use crate::Error;
use vstd::prelude::*;
use vstd::std_specs::convert::FromSpecImpl;
use vstd::utf8::encode_utf8;

verus! {

/// A language that the dictionary translates from and to Chinese.
#[derive(Debug, Clone, Copy, PartialEq, Eq, Default)]
pub enum Language {
    #[default]
    English,
    French,
    Korean,
    Japanese,
}

/// The ISO 639-1 code of a language.
pub open spec fn code_of(language: Language) -> Seq<char> {
    match language {
        Language::English => "en"@,
        Language::French => "fr"@,
        Language::Korean => "ko"@,
        Language::Japanese => "ja"@,
    }
}

/// The English name of a language.
pub open spec fn name_of(language: Language) -> Seq<char> {
    match language {
        Language::English => "English"@,
        Language::French => "French"@,
        Language::Korean => "Korean"@,
        Language::Japanese => "Japanese"@,
    }
}

impl Language {
    /// The ISO 639-1 code of the language.
    pub fn code(&self) -> (r: &'static str)
        ensures
            r@ == code_of(*self),
    {
        match self {
            Language::English => "en",
            Language::French => "fr",
            Language::Korean => "ko",
            Language::Japanese => "ja",
        }
    }

    /// The English name of the language, as it is displayed.
    pub fn name(&self) -> (r: &'static str)
        ensures
            r@ == name_of(*self),
    {
        match self {
            Language::English => "English",
            Language::French => "French",
            Language::Korean => "Korean",
            Language::Japanese => "Japanese",
        }
    }
}

/// A target language given on the command line.
#[derive(Debug, Clone, Copy, PartialEq, Eq)]
pub enum CliLanguage {
    English,
    French,
    Japanese,
    Korean,
}

/// The language that a command-line language names.
pub open spec fn language_of(lang: CliLanguage) -> Language {
    match lang {
        CliLanguage::English => Language::English,
        CliLanguage::French => Language::French,
        CliLanguage::Japanese => Language::Japanese,
        CliLanguage::Korean => Language::Korean,
    }
}

impl From<CliLanguage> for Language {
    fn from(lang: CliLanguage) -> (r: Self) {
        match lang {
            CliLanguage::English => Language::English,
            CliLanguage::French => Language::French,
            CliLanguage::Japanese => Language::Japanese,
            CliLanguage::Korean => Language::Korean,
        }
    }
}

impl FromSpecImpl<CliLanguage> for Language {
    open spec fn obeys_from_spec() -> bool {
        true
    }

    open spec fn from_spec(v: CliLanguage) -> Language {
        language_of(v)
    }
}

/// A recording that pronounces a text.
#[derive(Debug, Clone, PartialEq, Eq)]
pub struct Voice {
    pub label: String,
    pub url: String,
}

/// The address of the pronunciation service.
pub const VOICE_URL: &'static str = "https://dict.youdao.com/dictvoice";

/// The hexadecimal digit of `n < 16`, in upper case.
pub open spec fn hex_digit(n: u8) -> char {
    if n < 10 {
        (n + 0x30) as char
    } else {
        (n + 0x37) as char
    }
}

/// The bytes that `application/x-www-form-urlencoded` leaves as they are.
pub open spec fn is_unreserved(b: u8) -> bool {
    ||| b == 0x2A
    ||| b == 0x2D
    ||| b == 0x2E
    ||| b == 0x5F
    ||| 0x30 <= b <= 0x39
    ||| 0x41 <= b <= 0x5A
    ||| 0x61 <= b <= 0x7A
}

/// The form encoding of one byte: itself, `+` for a space, or `%XX`.
pub open spec fn form_encoded_byte(b: u8) -> Seq<char> {
    if is_unreserved(b) {
        seq![b as char]
    } else if b == 0x20 {
        seq!['+']
    } else {
        seq!['%', hex_digit(b / 16), hex_digit(b % 16)]
    }
}

/// The `application/x-www-form-urlencoded` encoding of `bytes`.
pub open spec fn form_encoded(bytes: Seq<u8>) -> Seq<char> {
    joined(bytes.map_values(|b: u8| form_encoded_byte(b)))
}

/// The form encoding of the text `t`, by its UTF-8 bytes.
pub open spec fn form_encoded_text(t: Seq<char>) -> Seq<char> {
    form_encoded(encode_utf8(t))
}

/// A query pair, form-encoded: the name, `=`, the value.
pub open spec fn form_pair(p: (Seq<char>, Seq<char>)) -> Seq<char> {
    form_encoded_text(p.0) + "="@ + form_encoded_text(p.1)
}

/// The `application/x-www-form-urlencoded` query of the pairs `pairs`: each
/// pair form-encoded, the pairs joined by `&`.
pub open spec fn form_query(pairs: Seq<(Seq<char>, Seq<char>)>) -> Seq<char> {
    rejoined(pairs.map_values(|p: (Seq<char>, Seq<char>)| form_pair(p)), '&')
}

/// The texts of the pairs `pairs`.
pub open spec fn pair_texts(pairs: Seq<(&str, &str)>) -> Seq<(Seq<char>, Seq<char>)> {
    pairs.map_values(|p: (&str, &str)| (p.0@, p.1@))
}

/// The address of the recording of `text`, with the query parameters
/// `audio` set to `text` and then `params`.
pub open spec fn voice_url(text: Seq<char>, params: Seq<(Seq<char>, Seq<char>)>) -> Seq<char> {
    VOICE_URL@ + "?"@ + form_query(seq![("audio"@, text)] + params)
}

/// The query that `url::form_urlencoded::Serializer` writes into an empty
/// string for `pairs` (`extend_pairs`, then `finish`): each name and value
/// form-encoded by `byte_serialize` and joined by `=`, the pairs joined by
/// `&`, as the crate's source writes it.
#[verifier::external_body]
fn form_urlencoded_query(pairs: &[(&str, &str)]) -> (r: String)
    ensures
        r@ == form_query(pair_texts(pairs@)),
{
    url::form_urlencoded::Serializer::new(String::new()).extend_pairs(pairs.iter()).finish()
}

impl Voice {
    /// The recording of the English `text` in the accent `kind`
    /// (`1` British, `2` American).
    pub fn english(label: &str, text: &str, kind: &str) -> (r: Self)
        ensures
            r.label@ == label@,
            r.url@ == voice_url(text@, seq![("type"@, kind@)]),
    {
        let params = [("type", kind)];
        let r = Self::youdao(label, text, &params);
        assert(pair_texts(params@) =~= seq![("type"@, kind@)]);
        r
    }

    /// The recording of `text` in the language with the service's code `le`.
    pub fn language(label: &str, text: &str, le: &str) -> (r: Self)
        ensures
            r.label@ == label@,
            r.url@ == voice_url(text@, seq![("le"@, le@)]),
    {
        let params = [("le", le)];
        let r = Self::youdao(label, text, &params);
        assert(pair_texts(params@) =~= seq![("le"@, le@)]);
        r
    }

    /// The recording of `text`, with the further query parameters `params`.
    fn youdao(label: &str, text: &str, params: &[(&str, &str)]) -> (r: Self)
        ensures
            r.label@ == label@,
            r.url@ == voice_url(text@, pair_texts(params@)),
    {
        let mut pairs: Vec<(&str, &str)> = Vec::new();
        pairs.push(("audio", text));
        let mut i: usize = 0;
        while i < params.len()
            invariant
                i <= params.len(),
                pairs@ == seq![("audio", text)] + params@.take(i as int),
            decreases params.len() - i,
        {
            pairs.push(params[i]);
            assert(params@.take(i + 1) =~= params@.take(i as int).push(params@[i as int]));
            i = i + 1;
        }
        assert(params@.take(params.len() as int) =~= params@);
        let query = form_urlencoded_query(pairs.as_slice());
        assert(pair_texts(pairs@) =~= seq![("audio"@, text@)] + pair_texts(params@));
        let mut url = String::from_str(VOICE_URL);
        url.append("?");
        url.append(query.as_str());
        Self { label: label.to_owned(), url }
    }
}

/// The address of the result page of `text` on the dictionary at
/// `base_url`, asking for the English interface.
pub open spec fn result_url(base_url: Seq<char>, text: Seq<char>) -> Seq<char> {
    base_url + "/result?"@ + form_query(seq![("word"@, text), ("lang"@, "en"@)])
}

/// The address of the result page of `text` on the dictionary at
/// `base_url`, with `word` and `lang` as form-encoded query parameters.
pub fn result_page_url(base_url: &str, text: &str) -> (r: String)
    ensures
        r@ == result_url(base_url@, text@),
{
    let pairs = [("word", text), ("lang", "en")];
    let query = form_urlencoded_query(&pairs);
    assert(pair_texts(pairs@) =~= seq![("word"@, text@), ("lang"@, "en"@)]);
    let mut url = String::from_str(base_url);
    url.append("/result?");
    url.append(query.as_str());
    url
}

/// Whether `s` holds a CJK unified ideograph (U+4E00 to U+9FFF).
pub open spec fn has_cjk(s: Seq<char>) -> bool {
    exists|i: int| 0 <= i < s.len() && is_cjk(#[trigger] s[i])
}

/// Whether `c` is a CJK unified ideograph (U+4E00 to U+9FFF).
pub open spec fn is_cjk(c: char) -> bool {
    0x4E00 <= c as u32 <= 0x9FFF
}

/// Whether `word` holds a CJK unified ideograph (U+4E00 to U+9FFF).
pub fn contains_cjk(word: &str) -> (r: bool)
    ensures
        r == has_cjk(word@),
{
    let v = crate::text::chars_of(word);
    let mut i: usize = 0;
    while i < v.len()
        invariant
            i <= v.len(),
            v@ == word@,
            forall|j: int| 0 <= j < i ==> !is_cjk(#[trigger] v@[j]),
        decreases v.len() - i,
    {
        let n: u32 = v[i] as u32;
        if 0x4E00 <= n && n <= 0x9FFF {
            assert(is_cjk(v@[i as int]));
            return true;
        }
        i = i + 1;
    }
    false
}

/// A text to look up, by the script it is written in: Chinese text is
/// translated to English, anything else to Chinese.
#[derive(Debug, Clone, PartialEq, Eq)]
pub enum Script {
    Chinese(String),
    English(String),
}

impl Script {
    /// Classifies `input`: Chinese when it holds a CJK ideograph, English
    /// otherwise; an empty input is refused.
    pub fn classify(input: &str) -> (r: Result<Script, Error>)
        ensures
            r is Err <==> input@.len() == 0,
            r matches Err(e) ==> e == Error::EmptyInput,
            r matches Ok(Script::Chinese(t)) ==> t@ == input@ && has_cjk(input@),
            r matches Ok(Script::English(t)) ==> t@ == input@ && !has_cjk(input@),
    {
        if input.is_empty() {
            return Err(Error::EmptyInput);
        }
        if contains_cjk(input) {
            Ok(Script::Chinese(input.to_owned()))
        } else {
            Ok(Script::English(input.to_owned()))
        }
    }

    /// The text looked up.
    pub fn text(&self) -> (r: &str)
        ensures
            r@ == match self {
                Script::Chinese(t) => t@,
                Script::English(t) => t@,
            },
    {
        match self {
            Script::Chinese(t) => t.as_str(),
            Script::English(t) => t.as_str(),
        }
    }

    /// The cache table of the translations of such a text.
    pub fn cache_table(&self) -> (r: &'static str)
        ensures
            self is Chinese ==> r@ == "to_english_results"@,
            self is English ==> r@ == "to_chinese_results"@,
    {
        match self {
            Script::Chinese(_) => "to_english_results",
            Script::English(_) => "to_chinese_results",
        }
    }
}

} // verus!
