//! The book descriptor handed to ingestion, and the mathematical model of
//! the documents a book contributes to the index.

use vstd::multiset::Multiset;
use vstd::prelude::*;

use crate::content::kept_lines;
use crate::title::normalized_title;

verus! {

broadcast use vstd::multiset::group_multiset_axioms, vstd::multiset::group_multiset_properties;

/// A stored document, as the index model sees it: book title, normalized
/// chapter title and paragraph text.
pub type DocRecord = (Seq<char>, Seq<char>, Seq<char>);

/// One chapter as delivered by the source renderer: its raw spine label
/// and its rendered plain-text content.
pub struct Chapter {
    pub raw_title: String,
    pub content: String,
}

/// A book descriptor: the title, the ordered spine of chapters, the
/// inclusive range of chapter indices to ingest, and the indices inside
/// that range that are deliberately excluded.
pub struct Book {
    pub title: String,
    pub spine: Vec<Chapter>,
    pub first_chapter_index: usize,
    pub last_chapter_index: usize,
    pub skippable_chapters: Vec<usize>,
}

impl Book {
    /// Valid bounds: the chapter range lies inside the spine, and every
    /// skip index lies inside the range.
    pub open spec fn wf(self) -> bool {
        &&& self.first_chapter_index <= self.last_chapter_index
        &&& self.last_chapter_index < self.spine@.len()
        &&& forall|k: int|
            0 <= k < self.skippable_chapters@.len() ==> self.first_chapter_index <= (
            #[trigger] self.skippable_chapters@[k]) <= self.last_chapter_index
    }

    /// Chapter index `i` is deliberately excluded from ingestion.
    pub open spec fn skipped(self, i: usize) -> bool {
        self.skippable_chapters@.contains(i)
    }
}

/// The documents of one chapter whose kept lines are `lines`.
pub open spec fn lines_docs(
    book_title: Seq<char>,
    chapter_title: Seq<char>,
    lines: Seq<Seq<char>>,
) -> Multiset<DocRecord>
    decreases lines.len(),
{
    if lines.len() == 0 {
        Multiset::empty()
    } else {
        lines_docs(book_title, chapter_title, lines.drop_last()).insert(
            (book_title, chapter_title, lines.last()),
        )
    }
}

/// All documents of one chapter of the book titled `book_title`.
pub open spec fn chapter_docs(book_title: Seq<char>, ch: Chapter) -> Multiset<DocRecord> {
    lines_docs(book_title, normalized_title(ch.raw_title@), kept_lines(ch.content@))
}

/// The documents of the chapters of `b` with index below `n`, skipped
/// chapters excluded.
pub open spec fn book_docs_upto(b: Book, n: int) -> Multiset<DocRecord>
    decreases n - b.first_chapter_index,
{
    if n <= b.first_chapter_index {
        Multiset::empty()
    } else {
        book_docs_upto(b, n - 1).add(
            if b.skipped((n - 1) as usize) {
                Multiset::empty()
            } else {
                chapter_docs(b.title@, b.spine@[n - 1])
            },
        )
    }
}

/// Every document that ingesting `b` adds to the index.
pub open spec fn book_docs(b: Book) -> Multiset<DocRecord> {
    book_docs_upto(b, b.last_chapter_index + 1)
}

/// The count of kept lines over the chapters of `b` with index below `n`
/// that are in range and not skipped.
pub open spec fn book_line_count(b: Book, n: int) -> nat
    decreases n - b.first_chapter_index,
{
    if n <= b.first_chapter_index {
        0
    } else {
        book_line_count(b, n - 1) + if b.skipped((n - 1) as usize) {
            0
        } else {
            kept_lines(b.spine@[n - 1].content@).len()
        }
    }
}

/// The documents of a chapter are one per kept line.
pub proof fn lemma_lines_docs_len(
    book_title: Seq<char>,
    chapter_title: Seq<char>,
    lines: Seq<Seq<char>>,
)
    ensures
        lines_docs(book_title, chapter_title, lines).len() == lines.len(),
    decreases lines.len(),
{
    if lines.len() > 0 {
        lemma_lines_docs_len(book_title, chapter_title, lines.drop_last());
    }
}

/// Law: the number of documents a book contributes equals the sum, over
/// every chapter index in its range that is not skipped, of the count of
/// kept lines of that chapter's rendered content.
pub proof fn lemma_book_doc_count(b: Book)
    ensures
        book_docs(b).len() == book_line_count(b, b.last_chapter_index + 1),
{
    lemma_book_doc_count_upto(b, b.last_chapter_index + 1);
}

/// The counting law, chapter prefix by chapter prefix.
pub proof fn lemma_book_doc_count_upto(b: Book, n: int)
    ensures
        book_docs_upto(b, n).len() == book_line_count(b, n),
    decreases n - b.first_chapter_index,
{
    if n > b.first_chapter_index {
        lemma_book_doc_count_upto(b, n - 1);
        if !b.skipped((n - 1) as usize) {
            let ch = b.spine@[n - 1];
            lemma_lines_docs_len(
                b.title@,
                normalized_title(ch.raw_title@),
                kept_lines(ch.content@),
            );
        }
    }
}

/// Law: every document of a book comes from a chapter of its range that
/// is not skipped; in particular a skipped chapter contributes nothing.
pub proof fn lemma_docs_from_unskipped(b: Book, d: DocRecord)
    requires
        book_docs(b).contains(d),
    ensures
        exists|i: int|
            {
                &&& b.first_chapter_index <= i <= b.last_chapter_index
                &&& !b.skipped(i as usize)
                &&& #[trigger] chapter_docs(b.title@, b.spine@[i]).contains(d)
            },
{
    lemma_docs_from_unskipped_upto(b, b.last_chapter_index + 1, d);
}

/// The provenance law, chapter prefix by chapter prefix.
pub proof fn lemma_docs_from_unskipped_upto(b: Book, n: int, d: DocRecord)
    requires
        book_docs_upto(b, n).contains(d),
    ensures
        exists|i: int|
            {
                &&& b.first_chapter_index <= i < n
                &&& !b.skipped(i as usize)
                &&& #[trigger] chapter_docs(b.title@, b.spine@[i]).contains(d)
            },
    decreases n - b.first_chapter_index,
{
    if n <= b.first_chapter_index {
        assert(false);
    } else {
        let tail = if b.skipped((n - 1) as usize) {
            Multiset::<DocRecord>::empty()
        } else {
            chapter_docs(b.title@, b.spine@[n - 1])
        };
        if tail.contains(d) {
            assert(b.first_chapter_index <= n - 1 < n && !b.skipped((n - 1) as usize)
                && chapter_docs(b.title@, b.spine@[n - 1]).contains(d));
        } else {
            lemma_docs_from_unskipped_upto(b, n - 1, d);
        }
    }
}

} // verus!
