use csearch::book::{Book, Chapter};
use csearch::engine::{search, QueryError};
use csearch::index::{build_search_index, ingest, IngestError, SearchIndex};

fn chapter(raw_title: &str, content: &str) -> Chapter {
    Chapter { raw_title: raw_title.to_string(), content: content.to_string() }
}

fn sample_book() -> Book {
    Book {
        title: "The Tide Cycle".to_string(),
        spine: vec![
            chapter("prologue", "A storm gathered over the tideborn coast.\n"),
            chapter(
                "Chapter 1",
                "The tideborn fisherman mended his net.\n\n[illustration]\nGulls wheeled above the tideborn harbor.\n",
            ),
            chapter("Chapter 2", "Rain fell on the quiet library vaults.\n"),
        ],
        first_chapter_index: 0,
        last_chapter_index: 2,
        skippable_chapters: vec![],
    }
}

fn ingested_index(book: &Book) -> SearchIndex {
    let mut index = build_search_index().expect("index creation");
    ingest(book, &mut index).expect("ingestion");
    index
}

#[test]
fn empty_query_is_rejected() {
    let index = build_search_index().expect("index creation");
    assert_eq!(search("", &index).unwrap_err(), QueryError::Empty);
}

#[test]
fn whitespace_query_is_rejected() {
    let index = build_search_index().expect("index creation");
    assert_eq!(search("   ", &index).unwrap_err(), QueryError::Empty);
}

#[test]
fn punctuation_only_query_is_rejected() {
    let index = ingested_index(&sample_book());
    assert_eq!(search("!?!", &index).unwrap_err(), QueryError::Empty);
}

#[test]
fn absent_term_yields_empty_ok() {
    let index = ingested_index(&sample_book());
    let results = search("zzzznonexistentzzzz", &index).expect("search");
    assert!(results.is_empty());
}

#[test]
fn hits_carry_stored_fields() {
    let index = ingested_index(&sample_book());
    let results = search("fisherman", &index).expect("search");
    assert_eq!(results.len(), 1);
    assert_eq!(results[0].book, "The Tide Cycle");
    assert_eq!(results[0].chapter, "Chapter 1");
    assert_eq!(results[0].text, "The tideborn fisherman mended his net.");
}

#[test]
fn document_count_matches_kept_lines() {
    // Three kept lines hold the term: one in the prologue and two in
    // chapter one; the bracketed line between them is dropped.
    let index = ingested_index(&sample_book());
    let results = search("tideborn", &index).expect("search");
    assert_eq!(results.len(), 3);
}

#[test]
fn query_syntax_is_neutralized() {
    let index = ingested_index(&sample_book());
    // Sanitization strips the quotes before the grammar can see them.
    let results = search("\"fisherman\"", &index).expect("search");
    assert_eq!(results.len(), 1);
}

#[test]
fn bare_operator_fails_to_parse() {
    let index = ingested_index(&sample_book());
    assert_eq!(search("AND", &index).unwrap_err(), QueryError::ParseFailure);
}

#[test]
fn results_cap_at_twenty() {
    let mut content = String::new();
    for i in 0..25 {
        content.push_str("The beacon flared number ");
        content.push_str(&i.to_string());
        content.push('\n');
    }
    let book = Book {
        title: "Signals".to_string(),
        spine: vec![chapter("Chapter 1", &content)],
        first_chapter_index: 0,
        last_chapter_index: 0,
        skippable_chapters: vec![],
    };
    let index = ingested_index(&book);
    let results = search("beacon", &index).expect("search");
    assert_eq!(results.len(), 20);
}

#[test]
fn skipped_chapter_contributes_nothing() {
    let mut book = sample_book();
    book.skippable_chapters = vec![2];
    let index = ingested_index(&book);
    // The term unique to chapter index 2 finds nothing.
    let results = search("library", &index).expect("search");
    assert!(results.is_empty());
    // Other chapters are fully represented.
    let results = search("tideborn", &index).expect("search");
    assert_eq!(results.len(), 3);
    for r in &results {
        assert_ne!(r.chapter, "Chapter 2");
    }
}

#[test]
fn several_books_accumulate() {
    let mut index = build_search_index().expect("index creation");
    ingest(&sample_book(), &mut index).expect("first ingestion");
    let other = Book {
        title: "Second Volume".to_string(),
        spine: vec![chapter("epilogue", "The tideborn city slept.\n")],
        first_chapter_index: 0,
        last_chapter_index: 0,
        skippable_chapters: vec![],
    };
    ingest(&other, &mut index).expect("second ingestion");
    let results = search("tideborn", &index).expect("search");
    assert_eq!(results.len(), 4);
    assert!(results.iter().any(|r| r.book == "Second Volume" && r.chapter == "Epilogue"));
}

#[test]
fn inverted_bounds_are_rejected() {
    let mut index = build_search_index().expect("index creation");
    let mut book = sample_book();
    book.first_chapter_index = 2;
    book.last_chapter_index = 1;
    assert_eq!(ingest(&book, &mut index).unwrap_err(), IngestError::InvalidBounds);
}

#[test]
fn out_of_spine_bounds_are_rejected() {
    let mut index = build_search_index().expect("index creation");
    let mut book = sample_book();
    book.last_chapter_index = 9;
    assert_eq!(ingest(&book, &mut index).unwrap_err(), IngestError::InvalidBounds);
}

#[test]
fn out_of_range_skip_is_rejected() {
    let mut index = build_search_index().expect("index creation");
    let mut book = sample_book();
    book.skippable_chapters = vec![7];
    assert_eq!(ingest(&book, &mut index).unwrap_err(), IngestError::InvalidBounds);
}

#[test]
fn duplicate_lines_are_distinct_documents() {
    let book = Book {
        title: "Echoes".to_string(),
        spine: vec![chapter("Chapter 1", "echo in the hall\necho in the hall\n")],
        first_chapter_index: 0,
        last_chapter_index: 0,
        skippable_chapters: vec![],
    };
    let index = ingested_index(&book);
    let results = search("echo", &index).expect("search");
    assert_eq!(results.len(), 2);
    assert_eq!(results[0].text, "echo in the hall");
    assert_eq!(results[1].text, "echo in the hall");
}
