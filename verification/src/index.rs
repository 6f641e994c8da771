//! The search index and ingestion: one committed batch of paragraph
//! documents per book, stored and retrieved through tantivy.

use tantivy::schema::IndexRecordOption;
use tantivy::schema::Schema;
use tantivy::schema::TextFieldIndexing;
use tantivy::schema::TextOptions;
use tantivy::schema::STORED;
use tantivy::schema::TEXT;
use vstd::multiset::Multiset;
use vstd::prelude::*;
use vstd::string::StrSliceExecFns;

use crate::book::Book;
use crate::book::DocRecord;
use crate::book::book_docs;
use crate::book::book_docs_upto;
use crate::book::chapter_docs;
use crate::book::lines_docs;
use crate::content::content_lines;
use crate::content::kept_lines;
use crate::title::normalized_title;
use crate::title::pretty_chapter;

verus! {

broadcast use vstd::multiset::group_multiset_axioms, vstd::multiset::group_multiset_properties;

#[verifier::external_type_specification]
#[verifier::external_body]
pub struct ExIndex(tantivy::Index);

/// The tantivy writer queue: documents added since the last commit. The
/// writer type itself cannot be declared to Verus, so it lives behind this
/// opaque holder.
#[verifier::external_body]
pub struct WriterQueue {
    inner: tantivy::IndexWriter,
}

#[verifier::external_type_specification]
#[verifier::external_body]
pub struct ExField(tantivy::schema::Field);

/// The documents committed to a tantivy index, as triples of book title,
/// chapter title and paragraph text.
pub uninterp spec fn tantivy_docs(i: tantivy::Index) -> Multiset<DocRecord>;

/// The documents queued on a tantivy writer and not yet committed, as the
/// same triples.
pub uninterp spec fn pending_docs(w: WriterQueue) -> Multiset<DocRecord>;

/// The index carries this library's one corpus schema: the stored text
/// fields `book_title`, `chapter_title` and `paragraph`, the last indexed
/// through the `en_stem` stemming analyzer that queries use in turn.
pub uninterp spec fn corpus_schema(i: tantivy::Index) -> bool;

/// A fatal ingestion failure: bad chapter bounds or skip set, or a
/// storage-side failure while creating, writing or committing the index.
/// Ingestion aborts on any of these; a partial corpus is never served.
#[derive(Clone, Copy, Debug, PartialEq, Eq)]
pub enum IngestError {
    InvalidBounds,
    IndexWrite,
}

/// The process-wide search index: the committed corpus, its writer, and
/// the three schema fields every document carries.
pub struct SearchIndex {
    pub(crate) index: tantivy::Index,
    pub(crate) writer: WriterQueue,
    pub(crate) book_field: tantivy::schema::Field,
    pub(crate) chapter_field: tantivy::schema::Field,
    pub(crate) paragraph_field: tantivy::schema::Field,
}

impl SearchIndex {
    /// The committed documents, visible to searches.
    pub closed spec fn docs(self) -> Multiset<DocRecord> {
        tantivy_docs(self.index)
    }

    /// The documents queued but not yet committed.
    pub closed spec fn pending(self) -> Multiset<DocRecord> {
        pending_docs(self.writer)
    }

    /// The index carries the library's corpus schema.
    pub closed spec fn schema_ok(self) -> bool {
        corpus_schema(self.index)
    }

    /// Relies on `SchemaBuilder::add_text_field`, `Index::create_from_tempdir`
    /// and `Index::writer`: a newly created index holds no document, carries
    /// the corpus schema its builder just laid down, and a fresh writer has
    /// nothing queued.
    #[verifier::external_body]
    fn create() -> (r: Result<SearchIndex, IngestError>)
        ensures
            r matches Ok(s) ==> s.docs() == Multiset::<DocRecord>::empty() && s.pending()
                == Multiset::<DocRecord>::empty(),
            r matches Ok(s) ==> corpus_schema(s.index),
            r matches Err(e) ==> e is IndexWrite,
    {
        let mut b = Schema::builder();
        let indexing = TextFieldIndexing::default().set_tokenizer("en_stem").set_index_option(IndexRecordOption::Basic);
        let opts = TextOptions::default().set_indexing_options(indexing).set_stored();
        let book_field = b.add_text_field("book_title", TEXT | STORED);
        let chapter_field = b.add_text_field("chapter_title", TEXT | STORED);
        let paragraph_field = b.add_text_field("paragraph", opts);
        let index = tantivy::Index::create_from_tempdir(b.build()).map_err(|_| IngestError::IndexWrite)?;
        let writer: tantivy::IndexWriter = index.writer(128_000_000).map_err(|_| IngestError::IndexWrite)?;
        Ok(SearchIndex { index, writer: WriterQueue { inner: writer }, book_field, chapter_field, paragraph_field })
    }

    /// Relies on `IndexWriter::add_document`: queues one document, visible
    /// to readers only after the next commit; the committed corpus is
    /// untouched.
    #[verifier::external_body]
    fn add_paragraph(&mut self, book_title: &str, chapter_title: &str, text: &str) -> (r: Result<
        (),
        IngestError,
    >)
        ensures
            r matches Ok(_) ==> pending_docs(final(self).writer) == pending_docs(
                old(self).writer,
            ).insert((book_title@, chapter_title@, text@)),
            r matches Ok(_) ==> final(self).index == old(self).index,
            r matches Err(e) ==> e is IndexWrite && final(self).index == old(self).index,
    {
        let mut doc = tantivy::TantivyDocument::default();
        doc.add_text(self.book_field, book_title);
        doc.add_text(self.chapter_field, chapter_title);
        doc.add_text(self.paragraph_field, text);
        match self.writer.inner.add_document(doc) {
            Ok(_) => Ok(()),
            Err(_) => Err(IngestError::IndexWrite),
        }
    }

    /// Relies on `IndexWriter::commit`: every queued document becomes part
    /// of the committed corpus, atomically, and the queue empties. A failed
    /// commit publishes nothing: the committed corpus is what it was.
    #[verifier::external_body]
    fn commit_book(&mut self) -> (r: Result<(), IngestError>)
        ensures
            r matches Ok(_) ==> tantivy_docs(final(self).index) == tantivy_docs(
                old(self).index,
            ).add(pending_docs(old(self).writer)) && pending_docs(final(self).writer)
                == Multiset::<DocRecord>::empty(),
            r matches Err(e) ==> e is IndexWrite && tantivy_docs(final(self).index)
                == tantivy_docs(old(self).index),
    {
        match self.writer.inner.commit() {
            Ok(_) => Ok(()),
            Err(_) => Err(IngestError::IndexWrite),
        }
    }
}

/// Creates the empty search index, with the corpus schema, that ingestion
/// fills.
pub fn build_search_index() -> (r: Result<SearchIndex, IngestError>)
    ensures
        r matches Ok(s) ==> s.docs() == Multiset::<DocRecord>::empty() && s.pending()
            == Multiset::<DocRecord>::empty(),
        r matches Ok(s) ==> s.schema_ok(),
        r matches Err(e) ==> e is IndexWrite,
{
    SearchIndex::create()
}

/// Whether `v` holds `x`.
fn contains_idx(v: &Vec<usize>, x: usize) -> (b: bool)
    ensures
        b == v@.contains(x),
{
    let mut j: usize = 0;
    while j < v.len()
        invariant
            j <= v@.len(),
            forall|k: int| 0 <= k < j ==> v@[k] != x,
        decreases v@.len() - j,
    {
        if v[j] == x {
            assert(v@.contains(x)) by { assert(v@[j as int] == x); }
            return true;
        }
        j += 1;
    }
    false
}

/// Whether the book's bounds and skip set are valid.
fn check_wf(book: &Book) -> (b: bool)
    ensures
        b == book.wf(),
{
    if book.first_chapter_index > book.last_chapter_index {
        return false;
    }
    if book.last_chapter_index >= book.spine.len() {
        return false;
    }
    let mut k: usize = 0;
    while k < book.skippable_chapters.len()
        invariant
            k <= book.skippable_chapters@.len(),
            book.first_chapter_index <= book.last_chapter_index < book.spine@.len(),
            forall|j: int| 0 <= j < k ==> book.first_chapter_index <= (
            #[trigger] book.skippable_chapters@[j]) <= book.last_chapter_index,
        decreases book.skippable_chapters@.len() - k,
    {
        let s = book.skippable_chapters[k];
        if s < book.first_chapter_index || s > book.last_chapter_index {
            return false;
        }
        k += 1;
    }
    true
}

/// Ingests one book: every chapter of the range that is not skipped
/// contributes one document per kept line of its rendered content, and the
/// batch becomes visible atomically when the book is committed. A book
/// with invalid bounds is rejected outright, and any storage failure
/// aborts the ingestion.
pub fn ingest(book: &Book, index: &mut SearchIndex) -> (r: Result<(), IngestError>)
    requires
        old(index).pending() == Multiset::<DocRecord>::empty(),
    ensures
        r matches Ok(_) ==> final(index).docs() == old(index).docs().add(book_docs(*book))
            && final(index).pending() == Multiset::<DocRecord>::empty(),
        r == Err::<(), IngestError>(IngestError::InvalidBounds) <==> !book.wf(),
        r == Err::<(), IngestError>(IngestError::InvalidBounds) ==> *final(index) == *old(index),
        r matches Err(_) ==> final(index).docs() == old(index).docs(),
{
    if !check_wf(book) {
        return Err(IngestError::InvalidBounds);
    }
    let last = book.last_chapter_index;
    let slen = book.spine.len();
    let mut i: usize = book.first_chapter_index;
    proof {
        assert(book_docs_upto(*book, i as int) =~= Multiset::<DocRecord>::empty());
    }
    while i <= last
        invariant
            book.wf(),
            last == book.last_chapter_index,
            book.first_chapter_index <= i <= last + 1,
            last < slen == book.spine@.len(),
            index.pending() == book_docs_upto(*book, i as int),
            index.docs() == old(index).docs(),
        decreases last + 1 - i,
    {
        if contains_idx(&book.skippable_chapters, i) {
            proof {
                assert(book.skipped(i));
                assert(book_docs_upto(*book, i + 1) =~= book_docs_upto(*book, i as int));
            }
        } else {
            let chapter_title = pretty_chapter(book.spine[i].raw_title.as_str());
            let lines = content_lines(book.spine[i].content.as_str());
            let ghost ct = normalized_title(book.spine@[i as int].raw_title@);
            let ghost kept = kept_lines(book.spine@[i as int].content@);
            let mut j: usize = 0;
            let m = lines.len();
            while j < m
                invariant
                    book.wf(),
                    i <= book.last_chapter_index < book.spine@.len(),
                    j <= m,
                    m == lines@.len(),
                    lines.deep_view() == kept,
                    kept == kept_lines(book.spine@[i as int].content@),
                    chapter_title@ == ct,
                    ct == normalized_title(book.spine@[i as int].raw_title@),
                    index.pending() == book_docs_upto(*book, i as int).add(
                        lines_docs(book.title@, ct, kept.take(j as int)),
                    ),
                    index.docs() == old(index).docs(),
                decreases m - j,
            {
                let ghost prev_pending = index.pending();
                let r = index.add_paragraph(
                    book.title.as_str(),
                    chapter_title.as_str(),
                    lines[j].as_str(),
                );
                if let Err(e) = r {
                    return Err(e);
                }
                proof {
                    assert(kept.take(j + 1).drop_last() =~= kept.take(j as int));
                    assert(kept.take(j + 1).last() == kept[j as int]);
                    assert(lines@[j as int]@ == kept[j as int]);
                    assert(prev_pending.insert((book.title@, ct, kept[j as int]))
                        =~= book_docs_upto(*book, i as int).add(
                        lines_docs(book.title@, ct, kept.take(j + 1)),
                    ));
                }
                j += 1;
            }
            proof {
                assert(kept.take(m as int) =~= kept);
                assert(!book.skipped(i));
                assert(book_docs_upto(*book, i as int).add(
                    chapter_docs(book.title@, book.spine@[i as int]),
                ) =~= book_docs_upto(*book, i + 1));
            }
        }
        i += 1;
    }
    proof {
        assert(book_docs_upto(*book, i as int) == book_docs(*book));
    }
    let r = index.commit_book();
    if let Err(e) = r {
        return Err(e);
    }
    Ok(())
}

} // verus!
