//! The query engine: sanitizes a raw query, runs ranked retrieval over the
//! paragraph field, and materializes the stored fields of every hit.

use vstd::multiset::Multiset;
use vstd::prelude::*;
use tantivy::schema::Value;
use vstd::string::StrSliceExecFns;

use crate::book::DocRecord;
use crate::index::SearchIndex;
use crate::sanitize::sanitize_query;
use crate::sanitize::sanitized;

verus! {

#[verifier::external_type_specification]
#[verifier::external_body]
pub struct ExSearcher(tantivy::Searcher);

#[verifier::external_type_specification]
#[verifier::external_body]
pub struct ExDocAddress(tantivy::DocAddress);

/// The documents a searcher's point-in-time snapshot holds, as triples of
/// book title, chapter title and paragraph text.
pub uninterp spec fn searcher_docs(s: tantivy::Searcher) -> Multiset<DocRecord>;

/// The address refers to a document slot of this searcher's snapshot, so
/// retrieving it cannot fault on the snapshot's segment list.
pub uninterp spec fn valid_address(s: tantivy::Searcher, a: tantivy::DocAddress) -> bool;

/// The stored triple of the snapshot's document at a valid address; a
/// function of the snapshot and the address alone.
pub uninterp spec fn address_doc(s: tantivy::Searcher, a: tantivy::DocAddress) -> DocRecord;

/// The sanitized query is accepted by the engine's query grammar over the
/// paragraph field. Acceptance depends on the query text alone: every
/// index of this library carries the one fixed schema and analyzer.
pub uninterp spec fn parses(query: Seq<char>) -> bool;

/// One stored document matches a sanitized query under the engine's term
/// grammar and the fixed index-time analyzer; a function of the query and
/// the document's own fields.
pub uninterp spec fn doc_matches(query: Seq<char>, d: DocRecord) -> bool;

/// How many documents of a corpus match a sanitized query.
pub open spec fn match_count(docs: Multiset<DocRecord>, query: Seq<char>) -> nat {
    docs.filter(|d: DocRecord| doc_matches(query, d)).len()
}

/// A per-query failure. `Empty` is a query with no usable character;
/// `ParseFailure` a sanitized query the term grammar still rejects; and
/// `Corruption` a defect of the index itself (a failed snapshot, or a hit
/// with a missing stored field), fatal rather than query-recoverable.
#[derive(Clone, Copy, Debug, PartialEq, Eq)]
pub enum QueryError {
    Empty,
    ParseFailure,
    Corruption,
}

/// One ranked hit, materialized from its stored fields.
#[derive(Debug)]
pub struct ResultRecord {
    pub book: String,
    pub chapter: String,
    pub text: String,
}

impl ResultRecord {
    /// The document triple this record displays.
    pub open spec fn rec(self) -> DocRecord {
        (self.book@, self.chapter@, self.text@)
    }
}

/// How many results a search returns at most.
pub const RESULT_LIMIT: usize = 20;

/// Relies on `Index::reader` and `IndexReader::searcher`: a searcher over a
/// point-in-time snapshot holding exactly the committed documents.
#[verifier::external_body]
fn open_snapshot(index: &SearchIndex) -> (r: Result<tantivy::Searcher, QueryError>)
    ensures
        r matches Ok(s) ==> searcher_docs(s) == index.docs(),
        r matches Err(e) ==> e is Corruption,
{
    match index.index.reader() {
        Ok(reader) => Ok(reader.searcher()),
        Err(_) => Err(QueryError::Corruption),
    }
}

/// Relies on `QueryParser::parse_query` over the paragraph field and on
/// `Searcher::search` with `TopDocs::with_limit`: parse acceptance is
/// decided by the grammar alone; on success the addresses of the `limit`
/// highest-scoring matches come back in rank order — all matches when
/// fewer than `limit` match — each a valid address of this searcher whose
/// document matches the query, and together no more of any document than
/// the snapshot holds.
#[verifier::external_body]
fn ranked_addresses(
    index: &SearchIndex,
    searcher: &tantivy::Searcher,
    query: &str,
    limit: usize,
) -> (r: Result<Vec<tantivy::DocAddress>, QueryError>)
    requires
        limit >= 1,
    ensures
        r matches Ok(a) ==> a@.len() == if match_count(searcher_docs(*searcher), query@) <= limit {
            match_count(searcher_docs(*searcher), query@)
        } else {
            limit as nat
        },
        r matches Ok(a) ==> (forall|k: int|
            0 <= k < a@.len() ==> valid_address(*searcher, #[trigger] a@[k])),
        r matches Ok(a) ==> (forall|k: int|
            0 <= k < a@.len() ==> doc_matches(query@, address_doc(*searcher, #[trigger] a@[k]))),
        r matches Ok(a) ==> a@.map_values(
            |ad: tantivy::DocAddress| address_doc(*searcher, ad),
        ).to_multiset().subset_of(searcher_docs(*searcher)),
        r matches Ok(a) ==> parses(query@),
        r matches Err(e) ==> e is ParseFailure || e is Corruption,
        r matches Err(e) ==> (e is ParseFailure <==> !parses(query@)),
{
    let parser = tantivy::query::QueryParser::for_index(
        &index.index,
        vec![index.paragraph_field],
    );
    let query = match parser.parse_query(query) {
        Ok(q) => q,
        Err(_) => return Err(QueryError::ParseFailure),
    };
    let collector = tantivy::collector::TopDocs::with_limit(limit).order_by_score();
    match searcher.search(&query, &collector) {
        Ok(top) => Ok(top.into_iter().map(|hit| hit.1).collect()),
        Err(_) => Err(QueryError::Corruption),
    }
}

/// Relies on `Searcher::doc` and on the stored `book_title`,
/// `chapter_title` and `paragraph` fields of the retrieved document: the
/// materialized triple is the snapshot's document at this address. The
/// address must belong to the searcher, since retrieval indexes the
/// snapshot's segment list by its segment ordinal. A missing stored field
/// is index corruption.
#[verifier::external_body]
fn fetch_record(
    index: &SearchIndex,
    searcher: &tantivy::Searcher,
    addr: &tantivy::DocAddress,
) -> (r: Result<ResultRecord, QueryError>)
    requires
        valid_address(*searcher, *addr),
    ensures
        r matches Ok(rec) ==> rec.rec() == address_doc(*searcher, *addr),
        r matches Ok(rec) ==> searcher_docs(*searcher).contains(rec.rec()),
        r matches Err(e) ==> e is Corruption,
{
    let doc: tantivy::TantivyDocument = searcher.doc(*addr).map_err(|_| QueryError::Corruption)?;
    let book = doc.get_first(index.book_field).and_then(|v| v.as_str()).ok_or(QueryError::Corruption)?.to_string();
    let chapter = doc.get_first(index.chapter_field).and_then(|v| v.as_str()).ok_or(QueryError::Corruption)?.to_string();
    let text = doc.get_first(index.paragraph_field).and_then(|v| v.as_str()).ok_or(QueryError::Corruption)?.to_string();
    Ok(ResultRecord { book, chapter, text })
}

/// Answers one query: the raw input is sanitized; a query with no usable
/// character is rejected as `Empty`, and one the grammar refuses as
/// `ParseFailure`; otherwise ranked retrieval returns at most
/// `RESULT_LIMIT` documents of the committed corpus — exactly
/// `RESULT_LIMIT` whenever more match — each materialized from its stored
/// fields in rank order, each matching the query, and together never more
/// of any document than the corpus holds.
pub fn search(raw_query: &str, index: &SearchIndex) -> (r: Result<Vec<ResultRecord>, QueryError>)
    ensures
        r == Err::<Vec<ResultRecord>, QueryError>(QueryError::Empty) <==> sanitized(
            raw_query@,
        ).len() == 0,
        r == Err::<Vec<ResultRecord>, QueryError>(QueryError::ParseFailure) ==> !parses(
            sanitized(raw_query@),
        ),
        r matches Ok(v) ==> {
            &&& parses(sanitized(raw_query@))
            &&& v@.len() == if match_count(index.docs(), sanitized(raw_query@)) <= RESULT_LIMIT {
                match_count(index.docs(), sanitized(raw_query@))
            } else {
                RESULT_LIMIT as nat
            }
            &&& forall|k: int| 0 <= k < v@.len() ==> index.docs().contains((#[trigger] v@[k]).rec())
            &&& forall|k: int|
                0 <= k < v@.len() ==> doc_matches(sanitized(raw_query@), (#[trigger] v@[k]).rec())
            &&& v@.map_values(|rr: ResultRecord| rr.rec()).to_multiset().subset_of(index.docs())
        },
{
    let q = sanitize_query(raw_query);
    if q.as_str().is_empty() {
        return Err(QueryError::Empty);
    }
    let searcher = match open_snapshot(index) {
        Ok(s) => s,
        Err(e) => return Err(e),
    };
    let addrs = match ranked_addresses(index, &searcher, q.as_str(), RESULT_LIMIT) {
        Ok(a) => a,
        Err(e) => return Err(e),
    };
    let ghost sq = sanitized(raw_query@);
    let mut out: Vec<ResultRecord> = Vec::new();
    let mut k: usize = 0;
    let n = addrs.len();
    while k < n
        invariant
            sq == sanitized(raw_query@),
            sq.len() != 0,
            parses(sq),
            k <= n,
            n == addrs@.len(),
            out@.len() == k,
            searcher_docs(searcher) == index.docs(),
            forall|t: int| 0 <= t < n ==> valid_address(searcher, #[trigger] addrs@[t]),
            forall|t: int| 0 <= t < n ==> doc_matches(sq, address_doc(searcher, #[trigger] addrs@[t])),
            forall|t: int| 0 <= t < k ==> (#[trigger] out@[t]).rec() == address_doc(
                searcher,
                addrs@[t],
            ),
            forall|t: int| 0 <= t < k ==> index.docs().contains((#[trigger] out@[t]).rec()),
        decreases n - k,
    {
        let rec = match fetch_record(index, &searcher, &addrs[k]) {
            Ok(rec) => rec,
            Err(e) => return Err(e),
        };
        out.push(rec);
        k += 1;
    }
    proof {
        assert(out@.map_values(|rr: ResultRecord| rr.rec()) =~= addrs@.map_values(
            |ad: tantivy::DocAddress| address_doc(searcher, ad),
        ));
    }
    Ok(out)
}

} // verus!
