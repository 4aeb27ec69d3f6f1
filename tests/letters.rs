use pharma_watch::crawl::{bfarm_next_page, pei_next_page};
use pharma_watch::date::Date;
use pharma_watch::letters::{
    bfarm_row_letter, classify_title, pei_letter, pei_letter_from, substances,
    with_long_description, BfarmRow, LetterSource, LetterType, PageLink, PeiDetail, TeaserNode,
};

fn bfarm_row(date: &str, href: Option<&str>, title: &str) -> BfarmRow {
    BfarmRow {
        cells: vec![date.to_string(), "ignored".to_string()],
        link: Some(PageLink { href: href.map(|h| h.to_string()), text: title.to_string() }),
        teaser: Some(vec![
            TeaserNode::Text("  Neue Hinweise ".to_string()),
            TeaserNode::Element("zur Dosierung".to_string()),
            TeaserNode::Span { wirkstoff: false, text: "versteckt".to_string() },
            TeaserNode::Span { wirkstoff: true, text: "Wirkstoff: Metamizol, Ibuprofen / Paracetamol".to_string() },
            TeaserNode::Text(" . ".to_string()),
        ]),
    }
}

fn pei_detail(title: &str, link_text: &str, updated: Option<&str>) -> PeiDetail {
    PeiDetail {
        title: Some(title.to_string()),
        abstract_parts: Some(vec!["Kurz ".to_string(), "gefasst".to_string()]),
        download: Some(PageLink { href: Some("/SharedDocs/rhb.pdf".to_string()), text: link_text.to_string() }),
        updated: updated.map(|u| u.to_string()),
    }
}

#[test]
fn titles_classify_ignoring_case() {
    assert_eq!(classify_title("Rote-Hand-Brief zu Valproat"), LetterType::RoteHandBrief);
    assert_eq!(classify_title("ROTE HAND BRIEF"), LetterType::RoteHandBrief);
    assert_eq!(classify_title("Rote-Hand Brief"), LetterType::RoteHandBrief);
    assert_eq!(classify_title("Informationsbrief zu X"), LetterType::Informationsbrief);
    assert_eq!(classify_title(""), LetterType::Informationsbrief);
}

#[test]
fn substances_follow_the_last_marker() {
    assert_eq!(substances("Wirkstoff: A, B / C"), vec!["A", "B", "C"]);
    assert_eq!(substances("X Wirkstoff: a Wirkstoff: b"), vec!["b"]);
    assert_eq!(substances("ohne"), vec!["ohne"]);
}

#[test]
fn bfarm_row_becomes_letter() {
    let row = bfarm_row(" 12.03.2024 ", Some("SharedDocs/RHB/2024/rhb-x.html?nn=1"), "Rote-Hand-Brief zu X");
    let b = bfarm_row_letter(&row).unwrap();
    assert_eq!(b.letter_type, LetterType::RoteHandBrief);
    assert_eq!(b.source, LetterSource::BfArM);
    assert_eq!(b.date, Date { year: 2024, month: 3, day: 12 });
    assert_eq!(b.title, "Rote-Hand-Brief zu X");
    assert_eq!(b.link_to_html, "https://www.bfarm.de/SharedDocs/RHB/2024/rhb-x");
    assert_eq!(b.link_to_pdf, "https://www.bfarm.de/SharedDocs/RHB/2024/rhb-x?__blob=publicationFile");
    assert_eq!(b.wirkstoffe, Some(vec!["Metamizol".to_string(), "Ibuprofen".to_string(), "Paracetamol".to_string()]));
    assert_eq!(b.short_description, Some("Neue Hinweise zur Dosierung .".to_string()));
    assert_eq!(b.long_description, None);
}

#[test]
fn bfarm_row_without_what_it_needs_is_skipped() {
    assert!(bfarm_row_letter(&bfarm_row("kein Datum", Some("a.html"), "t")).is_none());
    assert!(bfarm_row_letter(&bfarm_row("12.03.2024", None, "t")).is_none());
    let mut three = bfarm_row("12.03.2024", Some("a.html"), "t");
    three.cells.push("x".to_string());
    assert!(bfarm_row_letter(&three).is_none());
    let mut no_teaser = bfarm_row("12.03.2024", Some("a.html"), "t");
    no_teaser.teaser = None;
    assert!(bfarm_row_letter(&no_teaser).is_none());
}

#[test]
fn bfarm_listing_stops_on_a_page_without_letters() {
    let rows = vec![bfarm_row("12.03.2024", Some("a.html"), "t"), bfarm_row("x", Some("b.html"), "u")];
    let (letters, next) = bfarm_next_page(1, Some(&rows));
    assert_eq!(letters.len(), 1);
    assert_eq!(next, Some(2));
    let bad = vec![bfarm_row("x", Some("b.html"), "u")];
    let (letters, next) = bfarm_next_page(2, Some(&bad));
    assert_eq!(letters.len(), 0);
    assert_eq!(next, None);
    let (letters, next) = bfarm_next_page(3, None);
    assert!(letters.is_empty());
    assert_eq!(next, None);
}

#[test]
fn long_description_is_trimmed() {
    let b = bfarm_row_letter(&bfarm_row("12.03.2024", Some("a.html"), "t")).unwrap();
    let b = with_long_description(b, Some("  Lang  "));
    assert_eq!(b.long_description, Some("Lang".to_string()));
    let b = with_long_description(b, None);
    assert_eq!(b.long_description, Some("Lang".to_string()));
}

#[test]
fn pei_listing_keeps_letter_hits() {
    let hits = vec![
        PageLink { href: Some("DE/rhb-1".to_string()), text: "  Rote-Hand-Brief zu Y ".to_string() },
        PageLink { href: Some("DE/news".to_string()), text: "Pressemitteilung".to_string() },
        PageLink { href: None, text: "Informationsbrief".to_string() },
        PageLink { href: Some("DE/ib-2".to_string()), text: "INFORMATIONSBRIEF Z".to_string() },
    ];
    let (links, next) = pei_next_page(4, &hits);
    assert_eq!(links, vec!["https://www.pei.de/DE/rhb-1".to_string(), "https://www.pei.de/DE/ib-2".to_string()]);
    assert_eq!(next, Some(5));
    let (links, next) = pei_next_page(5, &Vec::new());
    assert!(links.is_empty());
    assert_eq!(next, None);
}

#[test]
fn pei_date_comes_from_the_download_link() {
    let d = pei_detail("  Rote-Hand-Brief zu Z ", "Download (14.05.2023) PDF", Some("Aktualisiert: 01.01.2024"));
    let b = pei_letter("https://www.pei.de/x", &d).unwrap();
    assert_eq!(b.date, Date { year: 2023, month: 5, day: 14 });
    assert_eq!(b.title, "Rote-Hand-Brief zu Z");
    assert_eq!(b.letter_type, LetterType::RoteHandBrief);
    assert_eq!(b.source, LetterSource::PEI);
    assert_eq!(b.link_to_html, "https://www.pei.de/x");
    assert_eq!(b.link_to_pdf, "https://www.pei.de/SharedDocs/rhb.pdf");
    assert_eq!(b.short_description, Some("Kurz gefasst".to_string()));
    assert_eq!(b.wirkstoffe, None);
}

#[test]
fn pei_date_falls_back_to_last_updated() {
    let d = pei_detail("Informationsbrief", "Download PDF", Some("  Aktualisiert:12.03.2024 "));
    let b = pei_letter("https://www.pei.de/y", &d).unwrap();
    assert_eq!(b.date, Date { year: 2024, month: 3, day: 12 });
    assert_eq!(b.letter_type, LetterType::Informationsbrief);
}

#[test]
fn pei_page_without_date_or_link_is_dropped() {
    assert!(pei_letter("u", &pei_detail("t", "Download", None)).is_none());
    assert!(pei_letter("u", &pei_detail("t", "Download (31.02.2023)", Some("Aktualisiert:12.03.2024"))).is_none());
    let mut no_title = pei_detail("t", "Download (14.05.2023)", None);
    no_title.title = None;
    assert!(pei_letter("u", &no_title).is_none());
    let mut no_link = pei_detail("t", "x", Some("Aktualisiert:12.03.2024"));
    no_link.download = None;
    assert!(pei_letter("u", &no_link).is_none());
}

#[test]
fn pei_letter_from_given_capture() {
    let d = pei_detail("t", "ignored", None);
    let b = pei_letter_from("u", &d, Some("02.01.2020")).unwrap();
    assert_eq!(b.date, Date { year: 2020, month: 1, day: 2 });
    assert!(pei_letter_from("u", &d, None).is_none());
}
