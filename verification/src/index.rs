//! The index: a full-text store of entries, built once at startup and
//! read-only afterwards.
//!
//! The store itself is the storage engine's: an in-memory SQLite database
//! with one FTS5 virtual table. It is opaque to the verifier; what it holds
//! is named by `index_entries`, and what its search returns by
//! `fts_results`. Everything around those two names is verified.

use crate::IndexBuildFailure;
use crate::RequestError;
use vstd::prelude::*;
use vstd::string::StrSliceExecFns;

verus! {

/// One indexed record: the owning group's name, an opaque reference, and
/// the searchable title. Immutable once inserted.
#[derive(Debug, PartialEq, Eq, Clone)]
pub struct Entry {
    pub collection: String,
    pub locator: String,
    pub title: String,
}

/// The mathematical image of an `Entry`.
pub ghost struct EntryView {
    pub collection: Seq<char>,
    pub locator: Seq<char>,
    pub title: Seq<char>,
}

impl View for Entry {
    type V = EntryView;

    open spec fn view(&self) -> EntryView {
        EntryView {
            collection: self.collection@,
            locator: self.locator@,
            title: self.title@,
        }
    }
}

/// The images of a sequence of entries, in order.
pub open spec fn entries_view(s: Seq<Entry>) -> Seq<EntryView> {
    s.map_values(|e: Entry| e@)
}

/// The full-text index. The private field is the storage engine's handle;
/// `index_entries` names what it holds.
#[verifier::external_body]
pub struct Index {
    conn: rusqlite::Connection,
}

/// What an index holds: the entries inserted into it, in insertion order.
pub uninterp spec fn index_entries(i: Index) -> Seq<EntryView>;

/// What the storage engine's full-text search returns: given what an index
/// holds, a collection name and query text, the entries of that collection
/// whose title matches the query under the engine's token-based matching,
/// in the engine's relevance order — or `None` when the engine rejects
/// this statement on these arguments, above all a query text whose syntax
/// it refuses.
pub uninterp spec fn fts_results(
    entries: Seq<EntryView>,
    collection: Seq<char>,
    query: Seq<char>,
) -> Option<Seq<EntryView>>;

impl Index {
    /// Relies on rusqlite: `Connection::open_in_memory`, and
    /// `Connection::execute` creating an FTS5 virtual table. A freshly
    /// created index holds no entries.
    #[verifier::external_body]
    pub(crate) fn new() -> (r: Result<Index, IndexBuildFailure>)
        ensures
            r matches Ok(i) ==> index_entries(i) == Seq::<EntryView>::empty(),
    {
        let conn = match rusqlite::Connection::open_in_memory() {
            Ok(c) => c,
            Err(_) => return Err(IndexBuildFailure),
        };
        match conn.execute("CREATE VIRTUAL TABLE videos USING FTS5 (playlist, url, title)", ()) {
            Ok(_) => Ok(Index { conn }),
            Err(_) => Err(IndexBuildFailure),
        }
    }

    /// Relies on rusqlite `Connection::execute` with a single-row INSERT:
    /// on success the table grows by exactly that row, and a failed
    /// single-row insert leaves the table unchanged.
    #[verifier::external_body]
    pub(crate) fn insert(&mut self, entry: &Entry) -> (r: Result<(), IndexBuildFailure>)
        ensures
            r is Ok ==> index_entries(*final(self)) == index_entries(*old(self)).push(entry@),
            r is Err ==> index_entries(*final(self)) == index_entries(*old(self)),
    {
        let res = self.conn.execute(
            "INSERT INTO videos VALUES (?, ?, ?)",
            (&entry.collection, &entry.locator, &entry.title),
        );
        match res {
            Ok(_) => Ok(()),
            Err(_) => Err(IndexBuildFailure),
        }
    }

    /// Relies on rusqlite prepared statements: `SELECT url, title FROM
    /// videos WHERE playlist = ? AND title MATCH ? ORDER BY rank`. Every
    /// returned row is a row of the table whose collection equals the one
    /// asked for; the rows are the engine's matches in its relevance
    /// order. Any engine failure — in particular a query whose syntax the
    /// engine rejects — is reported as `QuerySyntaxError` and the index is
    /// left untouched.
    #[verifier::external_body]
    pub(crate) fn search(&self, collection: &str, query: &str) -> (r: Result<Vec<Entry>, RequestError>)
        ensures
            r matches Ok(v) ==> {
                &&& Some(entries_view(v@)) == fts_results(index_entries(*self), collection@, query@)
                &&& forall|j: int| 0 <= j < v@.len() ==> (#[trigger] v@[j]@).collection
                    == collection@
                &&& forall|j: int| 0 <= j < v@.len() ==> index_entries(*self).contains(
                    #[trigger] v@[j]@,
                )
            },
            r is Err <==> fts_results(index_entries(*self), collection@, query@) is None,
            r matches Err(e) ==> e == RequestError::QuerySyntaxError,
    {
        let sql = "SELECT url, title FROM videos WHERE playlist = ? AND title MATCH ? ORDER BY rank";
        let mut stmt = self.conn.prepare(sql).map_err(|_| RequestError::QuerySyntaxError)?;
        let rows = stmt.query_map((collection, query), |row| {
            Ok(Entry { collection: collection.to_owned(), locator: row.get(0)?, title: row.get(1)? })
        });
        let mut out = Vec::new();
        for row in rows.map_err(|_| RequestError::QuerySyntaxError)? {
            out.push(row.map_err(|_| RequestError::QuerySyntaxError)?);
        }
        Ok(out)
    }
}

/// What one answered search establishes of the engine's result: every
/// returned entry is a stored entry of the searched collection.
pub open spec fn results_isolated(
    entries: Seq<EntryView>,
    collection: Seq<char>,
    query: Seq<char>,
) -> bool {
    match fts_results(entries, collection, query) {
        Some(rs) => forall|j: int|
            0 <= j < rs.len() ==> (#[trigger] rs[j]).collection == collection && entries.contains(
                rs[j],
            ),
        None => true,
    }
}

/// Executes one query: the entries of the given collection whose title
/// matches the query text, in the engine's relevance order.
///
/// Empty query text is no error: it yields an empty result set without
/// consulting the engine. A query whose syntax the engine rejects fails
/// with `QuerySyntaxError`, which callers treat as "no results" rather
/// than as fatal. The index is never mutated.
pub fn execute_query(index: &Index, collection: &str, query: &str) -> (r: Result<
    Vec<Entry>,
    RequestError,
>)
    ensures
        query@.len() == 0 ==> (r matches Ok(v) && v@.len() == 0),
        query@.len() > 0 ==> (r is Err <==> fts_results(
            index_entries(*index),
            collection@,
            query@,
        ) is None),
        query@.len() > 0 ==> (r matches Ok(v) ==> {
            &&& Some(entries_view(v@)) == fts_results(index_entries(*index), collection@, query@)
            &&& forall|j: int| 0 <= j < v@.len() ==> (#[trigger] v@[j]@).collection == collection@
            &&& forall|j: int| 0 <= j < v@.len() ==> index_entries(*index).contains(
                #[trigger] v@[j]@,
            )
        }),
        query@.len() > 0 ==> results_isolated(index_entries(*index), collection@, query@),
        r matches Err(e) ==> e == RequestError::QuerySyntaxError && query@.len() > 0,
{
    if query.unicode_len() == 0 {
        Ok(Vec::new())
    } else {
        match index.search(collection, query) {
            Ok(v) => {
                proof {
                    let entries = index_entries(*index);
                    let rs = entries_view(v@);
                    assert forall|j: int| 0 <= j < rs.len() implies (#[trigger] rs[j]).collection
                        == collection@ && entries.contains(rs[j]) by {
                        assert(rs[j] == v@[j]@);
                    }
                }
                Ok(v)
            },
            Err(e) => Err(e),
        }
    }
}

/// Two searches of an unchanged index with the same collection and query
/// return the same ordered results: the engine's answer is a function of
/// the index's contents and the arguments alone.
pub proof fn lemma_search_deterministic(
    entries: Seq<EntryView>,
    collection: Seq<char>,
    query: Seq<char>,
    r1: Seq<EntryView>,
    r2: Seq<EntryView>,
)
    requires
        fts_results(entries, collection, query) == Some(r1),
        fts_results(entries, collection, query) == Some(r2),
    ensures
        r1 == r2,
{
}

/// A collection no stored entry belongs to yields no results: every
/// result is a stored entry carrying the searched collection's name, and
/// no stored entry carries it.
pub proof fn lemma_absent_collection_is_empty(
    entries: Seq<EntryView>,
    collection: Seq<char>,
    results: Seq<EntryView>,
)
    requires
        forall|j: int|
            0 <= j < results.len() ==> (#[trigger] results[j]).collection == collection
                && entries.contains(results[j]),
        forall|j: int| 0 <= j < entries.len() ==> (#[trigger] entries[j]).collection != collection,
    ensures
        results.len() == 0,
{
    if results.len() > 0 {
        assert(entries.contains(results[0]));
        let k = choose|k: int| 0 <= k < entries.len() && entries[k] == results[0];
        assert(entries[k].collection != collection);
        assert(results[0].collection == collection);
    }
}

/// An entry of one collection is never among the results of a search of
/// another collection, whatever its title: every result carries the
/// searched collection's name.
pub proof fn lemma_collection_isolation(
    results: Seq<EntryView>,
    collection: Seq<char>,
    e: EntryView,
)
    requires
        forall|j: int| 0 <= j < results.len() ==> (#[trigger] results[j]).collection == collection,
        e.collection != collection,
    ensures
        !results.contains(e),
{
    assert forall|j: int| 0 <= j < results.len() implies results[j] != e by {
        assert(results[j].collection == collection);
    }
}

} // verus!
