use pharma_watch::date::Date;
use pharma_watch::fetch::{chunk_ranges, MAX_CONCURRENT_REQUESTS};
use pharma_watch::letters::{Brief, LetterSource, LetterType};
use pharma_watch::store::{ApiResponse, InnerStorage};

fn letter(url: &str, title: &str) -> Brief {
    Brief {
        letter_type: LetterType::Informationsbrief,
        source: LetterSource::PEI,
        date: Date { year: 2024, month: 1, day: 1 },
        title: title.to_string(),
        wirkstoffe: None,
        link_to_html: url.to_string(),
        link_to_pdf: format!("{url}.pdf"),
        short_description: None,
        long_description: None,
    }
}

#[test]
fn cached_candidate_is_not_fetched_again() {
    let mut store = InnerStorage::new();
    assert!(matches!(store.briefe(), ApiResponse::NotReady));
    store.merge_letters(vec![Some(letter("https://a", "alt"))]);
    let before = store.briefe.len();
    let fresh = store.new_candidates(vec![letter("https://a", "again"), letter("https://b", "neu")]);
    assert_eq!(fresh.len(), 1);
    assert_eq!(fresh[0].link_to_html, "https://b");
    store.merge_letters(fresh.into_iter().map(Some).collect());
    assert_eq!(store.briefe.len(), before + 1);
    match store.briefe() {
        ApiResponse::Success(v) => assert_eq!(v.len(), 2),
        ApiResponse::NotReady => panic!("letters not ready"),
    }
}

#[test]
fn cached_links_are_filtered() {
    let mut store = InnerStorage::new();
    store.insert_letter(letter("https://x", "x"));
    let links = store.new_links(vec!["https://x".to_string(), "https://y".to_string(), "https://z".to_string()]);
    assert_eq!(links, vec!["https://y".to_string(), "https://z".to_string()]);
    assert!(store.contains_key("https://x"));
    assert!(!store.contains_key("https://y"));
}

#[test]
fn insert_overwrites_same_key() {
    let mut store = InnerStorage::new();
    store.insert_letter(letter("https://k", "eins"));
    store.insert_letter(letter("https://k", "zwei"));
    assert_eq!(store.briefe.len(), 1);
    assert_eq!(store.briefe[0].title, "zwei");
}

#[test]
fn failed_items_do_not_stop_the_batch() {
    let mut store = InnerStorage::new();
    store.merge_letters(vec![Some(letter("https://1", "a")), None, Some(letter("https://3", "c"))]);
    assert_eq!(store.briefe.len(), 2);
    assert!(store.contains_key("https://1"));
    assert!(store.contains_key("https://3"));
    assert!(store.briefe_loaded_initially);
}

#[test]
fn chunks_never_exceed_the_cap() {
    let plan = chunk_ranges(12, MAX_CONCURRENT_REQUESTS);
    assert_eq!(plan, vec![(0, 5), (5, 10), (10, 12)]);
    assert_eq!(chunk_ranges(5, 5), vec![(0, 5)]);
    assert!(chunk_ranges(0, 5).is_empty());
    assert_eq!(chunk_ranges(3, 1), vec![(0, 1), (1, 2), (2, 3)]);
}
