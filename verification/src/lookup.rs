//! The decisions of a lookup: when to read the cache, when to fetch the
//! page, what to keep, and what to answer. The caller performs each action
//! (a cache query, an HTTP request) and hands back what came of it.

use crate::model::{has_cjk, Script};
use crate::rdict::{missing_results_message, script_outcome, translate_for_script, FetchedResult, TranslationData, TranslationDataView};
use crate::html::document_selection;
use crate::parse::selectors;
use crate::Error;
use vstd::prelude::*;

verus! {

/// What became of reading the cache.
#[derive(Debug, Clone, PartialEq)]
pub enum CacheRead {
    /// A translation was stored for the text, and it decoded.
    Hit(TranslationData),
    /// Nothing is stored for the text.
    Miss,
    /// The query failed, or the stored data did not decode.
    Broken,
}

/// What the caller has to do next.
#[derive(Debug, PartialEq)]
pub enum Action {
    /// Read the translation stored for `text()` in `table()`.
    ReadCache,
    /// Delete the row stored for `text()` in `table()`.
    DeleteCached,
    /// Fetch the result page of `text()`.
    Fetch,
    /// Store this translation for `text()` in `table()`.
    WriteCache(TranslationData),
    /// The lookup is over, with this outcome.
    Finish(Result<FetchedResult, Error>),
}

/// A lookup under way.
pub struct Lookup {
    script: Script,
    caching: bool,
}

impl View for Lookup {
    type V = (Seq<char>, bool, bool);

    /// The text looked up, whether it is Chinese, whether the cache is used.
    closed spec fn view(&self) -> (Seq<char>, bool, bool) {
        match self.script {
            Script::Chinese(t) => (t@, true, self.caching),
            Script::English(t) => (t@, false, self.caching),
        }
    }
}

/// The cache table of a text: Chinese text is stored with its English
/// translations, other text with its Chinese ones.
pub open spec fn table_of(chinese: bool) -> Seq<char> {
    if chinese {
        "to_english_results"@
    } else {
        "to_chinese_results"@
    }
}

/// The outcome of fetching and reading a page that gave `html`, for a text
/// with a CJK ideograph (`chinese`) or another text.
pub open spec fn fetched_outcome(html: Seq<char>, chinese: bool) -> Option<
    Result<TranslationDataView, Error>,
> {
    let bodies = document_selection(html, selectors::BODY@);
    if bodies.len() > 0 {
        Some(script_outcome(bodies[0], chinese))
    } else {
        None
    }
}

/// Whether a stored translation `v` is of the kind kept for a text with a
/// CJK ideograph (`chinese`: Chinese to English) or another text (English
/// to Chinese).
pub open spec fn cached_kind(v: TranslationDataView, chinese: bool) -> bool {
    if chinese {
        v is ToEnglish
    } else {
        v is FromEnglish
    }
}

impl Lookup {
    /// Starts the lookup of `input`: refused when it is empty; otherwise the
    /// cache is read first when `caching`, and the page fetched when not.
    pub fn start(input: &str, caching: bool) -> (r: Result<(Lookup, Action), Error>)
        ensures
            r is Err <==> input@.len() == 0,
            r matches Err(e) ==> e == Error::EmptyInput,
            r matches Ok((l, a)) ==> {
                &&& l@ == (input@, has_cjk(input@), caching)
                &&& caching ==> a == Action::ReadCache
                &&& !caching ==> a == Action::Fetch
            },
    {
        match Script::classify(input) {
            Err(e) => Err(e),
            Ok(script) => {
                let action = if caching {
                    Action::ReadCache
                } else {
                    Action::Fetch
                };
                Ok((Lookup { script, caching }, action))
            },
        }
    }

    /// The text looked up.
    pub fn text(&self) -> (r: &str)
        ensures
            r@ == self@.0,
    {
        self.script.text()
    }

    /// The cache table of the text: Chinese text is stored with its English
    /// translations, other text with its Chinese ones.
    pub fn table(&self) -> (r: &'static str)
        ensures
            r@ == table_of(self@.1),
    {
        self.script.cache_table()
    }

    /// The query that reads the translation stored for the text.
    pub fn select_query(&self) -> (r: String)
        ensures
            r@ == "SELECT data FROM "@ + table_of(self@.1) + " WHERE text = ?"@,
    {
        let mut q = String::from_str("SELECT data FROM ");
        q.append(self.table());
        q.append(" WHERE text = ?");
        q
    }

    /// The query that deletes the row stored for the text.
    pub fn delete_query(&self) -> (r: String)
        ensures
            r@ == "DELETE FROM "@ + table_of(self@.1) + " WHERE text = ?"@,
    {
        let mut q = String::from_str("DELETE FROM ");
        q.append(self.table());
        q.append(" WHERE text = ?");
        q
    }

    /// The query that stores a translation for the text, replacing any.
    pub fn insert_query(&self) -> (r: String)
        ensures
            r@ == "INSERT OR REPLACE INTO "@ + table_of(self@.1) + " (text, data) VALUES (?, ?)"@,
    {
        let mut q = String::from_str("INSERT OR REPLACE INTO ");
        q.append(self.table());
        q.append(" (text, data) VALUES (?, ?)");
        q
    }

    /// After reading the cache: a stored translation of the kind that the
    /// text's script asks for is the answer; on a miss the page is fetched; a
    /// broken row, or a stored translation of another kind, is deleted first.
    pub fn after_cache_read(&self, read: CacheRead) -> (r: Action)
        ensures
            read matches CacheRead::Hit(d) ==> (cached_kind(d.deep_view(), self@.1) ==> r
                == Action::Finish(
                Ok::<FetchedResult, Error>(FetchedResult { data: d, is_cached: true }),
            )),
            read matches CacheRead::Hit(d) ==> (!cached_kind(d.deep_view(), self@.1) ==> r
                == Action::DeleteCached),
            read is Miss ==> r == Action::Fetch,
            read is Broken ==> r == Action::DeleteCached,
    {
        let chinese = match self.script {
            Script::Chinese(_) => true,
            Script::English(_) => false,
        };
        match read {
            CacheRead::Hit(data) => {
                let kind_ok = match &data {
                    TranslationData::ToEnglish(_) => chinese,
                    TranslationData::FromEnglish(_) => !chinese,
                    _ => false,
                };
                if kind_ok {
                    Action::Finish(Ok(FetchedResult { data, is_cached: true }))
                } else {
                    Action::DeleteCached
                }
            },
            CacheRead::Miss => Action::Fetch,
            CacheRead::Broken => Action::DeleteCached,
        }
    }

    /// After deleting a broken row, the page is fetched.
    pub fn after_delete(&self) -> (r: Action)
        ensures
            r == Action::Fetch,
    {
        Action::Fetch
    }

    /// After fetching the page `html`: it is read with the parser of the
    /// text's script (Chinese to English for a text with a CJK ideograph,
    /// English to Chinese otherwise), falling back on its suggestions; the
    /// translation is stored when the cache is used, and is the answer
    /// otherwise; a page that gives no translation ends the lookup with its
    /// error.
    pub fn after_fetch(&self, html: &str) -> (r: Action)
        ensures
            fetched_outcome(html@, self@.1) is None ==> (r matches Action::Finish(
                Err(Error::Parse(m)),
            ) && m@ == missing_results_message()),
            fetched_outcome(html@, self@.1) matches Some(Err(e)) ==> r == Action::Finish(
                Err::<FetchedResult, Error>(e),
            ),
            fetched_outcome(html@, self@.1) matches Some(Ok(v)) ==> {
                &&& self@.2 ==> (r matches Action::WriteCache(d) && d.deep_view() == v)
                &&& !self@.2 ==> (r matches Action::Finish(Ok(f)) && f.data.deep_view() == v
                    && !f.is_cached)
            },
    {
        let chinese = match self.script {
            Script::Chinese(_) => true,
            Script::English(_) => false,
        };
        match translate_for_script(html, chinese) {
            Err(e) => Action::Finish(Err(e)),
            Ok(data) => if self.caching {
                Action::WriteCache(data)
            } else {
                Action::Finish(Ok(FetchedResult { data, is_cached: false }))
            },
        }
    }

    /// After storing the translation `data`, it is the answer.
    pub fn after_write(&self, data: TranslationData) -> (r: Action)
        ensures
            r == Action::Finish(
                Ok::<FetchedResult, Error>(FetchedResult { data: data, is_cached: false }),
            ),
    {
        Action::Finish(Ok(FetchedResult { data, is_cached: false }))
    }
}

} // verus!
