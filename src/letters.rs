//! Safety letters: the record, how a title classifies it, and how the two
//! sources' listing rows and detail pages become records.
use vstd::prelude::*;
use crate::date::{Date, parse_dmy, dmy_date_of};
use crate::text::{
    trim, trim_of, contains_ascii_ci, contains_ignore_case, split_at_chars, split_on,
    text_after_last, after_last, text_before_first, before_first,
};

verus! {

/// Formal safety letter or information letter.
#[derive(Clone, Copy, Debug, PartialEq, Eq, Structural)]
pub enum LetterType {
    RoteHandBrief,
    Informationsbrief,
}

/// The regulator a letter comes from.
#[derive(Clone, Copy, Debug, PartialEq, Eq, Structural)]
pub enum LetterSource {
    BfArM,
    PEI,
}

/// One safety letter; `link_to_html` is its identity.
#[derive(Clone, Debug)]
pub struct Brief {
    pub letter_type: LetterType,
    pub source: LetterSource,
    pub date: Date,
    pub title: String,
    pub wirkstoffe: Option<Vec<String>>,
    pub link_to_html: String,
    pub link_to_pdf: String,
    pub short_description: Option<String>,
    pub long_description: Option<String>,
}

impl Brief {
    /// The letter's identity key.
    pub open spec fn key(&self) -> Seq<char> {
        self.link_to_html@
    }
}

/// A title names a formal safety letter.
pub open spec fn names_red_hand(t: Seq<char>) -> bool {
    contains_ignore_case(t, "rote-hand-brief"@) || contains_ignore_case(t, "rote hand brief"@)
        || contains_ignore_case(t, "rote-hand brief"@)
}

pub open spec fn letter_type_of(t: Seq<char>) -> LetterType {
    if names_red_hand(t) {
        LetterType::RoteHandBrief
    } else {
        LetterType::Informationsbrief
    }
}

/// Classifies a letter by its title, ignoring case.
pub fn classify_title(title: &str) -> (r: LetterType)
    ensures
        r == letter_type_of(title@),
{
    if contains_ascii_ci(title, "rote-hand-brief") || contains_ascii_ci(title, "rote hand brief")
        || contains_ascii_ci(title, "rote-hand brief") {
        LetterType::RoteHandBrief
    } else {
        LetterType::Informationsbrief
    }
}

/// A link found on a page: its target, if it has one, and its text.
pub struct PageLink {
    pub href: Option<String>,
    pub text: String,
}

/// A child of a listing row's teaser paragraph.
pub enum TeaserNode {
    /// A text node.
    Text(String),
    /// A `span` element; `wirkstoff` where it is marked as listing substances.
    Span { wirkstoff: bool, text: String },
    /// Any other element, with its text.
    Element(String),
}

/// One row of the BfArM listing table, as the markup gives it.
pub struct BfarmRow {
    /// The texts of the row's cells.
    pub cells: Vec<String>,
    /// The first link of the second cell; its text is the title markup.
    pub link: Option<PageLink>,
    /// The children of the second cell's teaser paragraph.
    pub teaser: Option<Vec<TeaserNode>>,
}

/// The description text of a teaser: text nodes and elements other than
/// spans, in order.
pub open spec fn teaser_text(nodes: Seq<TeaserNode>) -> Seq<char>
    decreases nodes.len(),
{
    if nodes.len() == 0 {
        Seq::empty()
    } else {
        let p = teaser_text(nodes.drop_last());
        match nodes.last() {
            TeaserNode::Text(t) => p + t@,
            TeaserNode::Element(t) => p + t@,
            TeaserNode::Span { .. } => p,
        }
    }
}

/// The substances named in a span's text: what follows the last
/// `Wirkstoff:`, split at `,` and `/`, each piece trimmed.
pub open spec fn substances_of(t: Seq<char>) -> Seq<Seq<char>> {
    let p = split_on(after_last(t, "Wirkstoff:"@), ',', '/');
    Seq::new(p.len(), |i: int| trim_of(p[i]))
}

/// The substances of a teaser: those of its last substance span, or none.
pub open spec fn teaser_substances(nodes: Seq<TeaserNode>) -> Seq<Seq<char>>
    decreases nodes.len(),
{
    if nodes.len() == 0 {
        Seq::empty()
    } else {
        match nodes.last() {
            TeaserNode::Span { wirkstoff, text } => if wirkstoff {
                substances_of(text@)
            } else {
                teaser_substances(nodes.drop_last())
            },
            _ => teaser_substances(nodes.drop_last()),
        }
    }
}

/// Reads the substances from a span's text.
pub fn substances(t: &str) -> (r: Vec<String>)
    ensures
        r.deep_view() == substances_of(t@),
{
    let tail = text_after_last(t, "Wirkstoff:");
    let parts = split_at_chars(tail.as_str(), ',', '/');
    let ghost p = split_on(after_last(t@, "Wirkstoff:"@), ',', '/');
    let mut out: Vec<String> = Vec::new();
    let mut i: usize = 0;
    while i < parts.len()
        invariant
            i <= parts@.len(),
            parts.deep_view() == p,
            out@.len() == i,
            forall|k: int| 0 <= k < i ==> (#[trigger] out@[k])@ == trim_of(p[k]),
        decreases parts@.len() - i,
    {
        assert(p[i as int] == parts@[i as int]@);
        out.push(trim(parts[i].as_str()));
        i = i + 1;
    }
    assert(out.deep_view() =~= substances_of(t@));
    out
}

/// Reads a teaser paragraph into its description text and its substances.
pub fn read_teaser(nodes: &Vec<TeaserNode>) -> (r: (String, Vec<String>))
    ensures
        r.0@ == teaser_text(nodes@),
        r.1.deep_view() == teaser_substances(nodes@),
{
    let mut text = String::new();
    let mut subs: Vec<String> = Vec::new();
    let mut i: usize = 0;
    assert(nodes@.subrange(0, 0) =~= Seq::<TeaserNode>::empty());
    while i < nodes.len()
        invariant
            i <= nodes@.len(),
            text@ == teaser_text(nodes@.subrange(0, i as int)),
            subs.deep_view() == teaser_substances(nodes@.subrange(0, i as int)),
        decreases nodes@.len() - i,
    {
        let ghost nxt = nodes@.subrange(0, i + 1);
        assert(nxt.drop_last() =~= nodes@.subrange(0, i as int));
        assert(nxt.last() == nodes@[i as int]);
        match &nodes[i] {
            TeaserNode::Text(t) => {
                text.append(t.as_str());
            },
            TeaserNode::Element(t) => {
                text.append(t.as_str());
            },
            TeaserNode::Span { wirkstoff, text: t } => {
                if *wirkstoff {
                    subs = substances(t.as_str());
                }
            },
        }
        i = i + 1;
    }
    assert(nodes@.subrange(0, nodes@.len() as int) =~= nodes@);
    (text, subs)
}

pub open spec fn bfarm_prefix() -> Seq<char> {
    "https://www.bfarm.de/"@
}

pub open spec fn pdf_suffix() -> Seq<char> {
    "?__blob=publicationFile"@
}

/// A listing row yields a letter: two cells, a date in the first, a link with
/// a target and a teaser paragraph in the second.
pub open spec fn bfarm_row_ok(row: BfarmRow) -> bool {
    &&& row.cells@.len() == 2
    &&& dmy_date_of(trim_of(row.cells@[0]@)) is Some
    &&& row.link matches Some(l) && l.href is Some
    &&& row.teaser is Some
}

/// The letter that a listing row yields, field by field.
pub open spec fn bfarm_row_reads(b: Brief, row: BfarmRow) -> bool {
    let l = row.link->0;
    let html = bfarm_prefix() + before_first(l.href->0@, ".html"@);
    let nodes = row.teaser->0@;
    &&& b.letter_type == letter_type_of(l.text@)
    &&& b.source == LetterSource::BfArM
    &&& b.date.wf()
    &&& dmy_date_of(trim_of(row.cells@[0]@)) == Some(b.date.triple())
    &&& b.title@ == l.text@
    &&& b.wirkstoffe matches Some(w) && w.deep_view() == teaser_substances(nodes)
    &&& b.link_to_html@ == html
    &&& b.link_to_pdf@ == html + pdf_suffix()
    &&& b.short_description matches Some(d) && d@ == trim_of(teaser_text(nodes))
    &&& b.long_description is None
}

/// Turns a row of the BfArM listing into a letter, or `None` where the row
/// lacks what a letter needs.
pub fn bfarm_row_letter(row: &BfarmRow) -> (r: Option<Brief>)
    ensures
        r is Some <==> bfarm_row_ok(*row),
        r matches Some(b) ==> bfarm_row_reads(b, *row),
{
    if row.cells.len() != 2 {
        return None;
    }
    let date = match parse_dmy(trim(row.cells[0].as_str()).as_str()) {
        Some(d) => d,
        None => {
            return None;
        },
    };
    let link = match &row.link {
        Some(l) => l,
        None => {
            return None;
        },
    };
    let href = match &link.href {
        Some(h) => h,
        None => {
            return None;
        },
    };
    let nodes = match &row.teaser {
        Some(n) => n,
        None => {
            return None;
        },
    };
    let base = text_before_first(href.as_str(), ".html");
    let html = String::from_str("https://www.bfarm.de/").concat(base.as_str());
    let pdf = html.clone().concat("?__blob=publicationFile");
    let (text, subs) = read_teaser(nodes);
    let short = trim(text.as_str());
    Some(Brief {
        letter_type: classify_title(link.text.as_str()),
        source: LetterSource::BfArM,
        date,
        title: link.text.clone(),
        wirkstoffe: Some(subs),
        link_to_html: html,
        link_to_pdf: pdf,
        short_description: Some(short),
        long_description: None,
    })
}

/// Sets the long description from the detail page's first content paragraph,
/// trimmed; a page without one leaves the letter as it is.
pub fn with_long_description(b: Brief, paragraph: Option<&str>) -> (r: Brief)
    ensures
        r.letter_type == b.letter_type,
        r.source == b.source,
        r.date == b.date,
        r.title == b.title,
        r.wirkstoffe == b.wirkstoffe,
        r.link_to_html == b.link_to_html,
        r.link_to_pdf == b.link_to_pdf,
        r.short_description == b.short_description,
        match paragraph {
            Some(p) => r.long_description matches Some(d) && d@ == trim_of(p@),
            None => r.long_description == b.long_description,
        },
{
    match paragraph {
        Some(p) => Brief { long_description: Some(trim(p)), ..b },
        None => b,
    }
}

/// A search hit of the PEI listing names a letter.
pub open spec fn names_letter(t: Seq<char>) -> bool {
    let t = trim_of(t);
    names_red_hand(t) || contains_ignore_case(t, "informationsbrief"@)
}

pub open spec fn pei_prefix() -> Seq<char> {
    "https://www.pei.de/"@
}

/// The detail-page addresses of the letters among a page of search hits, in
/// order: hits with a target whose text names a letter.
pub open spec fn pei_links_of(hits: Seq<PageLink>) -> Seq<Seq<char>>
    decreases hits.len(),
{
    if hits.len() == 0 {
        Seq::empty()
    } else {
        let p = pei_links_of(hits.drop_last());
        let h = hits.last();
        if h.href is Some && names_letter(h.text@) {
            p.push(pei_prefix() + h.href->0@)
        } else {
            p
        }
    }
}

/// Picks the letters' detail-page addresses from a page of PEI search hits.
pub fn pei_listing_links(hits: &Vec<PageLink>) -> (r: Vec<String>)
    ensures
        r.deep_view() == pei_links_of(hits@),
{
    let mut out: Vec<String> = Vec::new();
    let mut i: usize = 0;
    assert(hits@.subrange(0, 0) =~= Seq::<PageLink>::empty());
    while i < hits.len()
        invariant
            i <= hits@.len(),
            out.deep_view() == pei_links_of(hits@.subrange(0, i as int)),
        decreases hits@.len() - i,
    {
        let ghost nxt = hits@.subrange(0, i + 1);
        assert(nxt.drop_last() =~= hits@.subrange(0, i as int));
        assert(nxt.last() == hits@[i as int]);
        let h = &hits[i];
        if let Some(href) = &h.href {
            let t = trim(h.text.as_str());
            let t = t.as_str();
            if classify_title(t) == LetterType::RoteHandBrief || contains_ascii_ci(
                t,
                "informationsbrief",
            ) {
                let ghost old_dv = out.deep_view();
                out.push(String::from_str("https://www.pei.de/").concat(href.as_str()));
                assert(out.deep_view() =~= old_dv.push(pei_prefix() + href@));
            }
        }
        i = i + 1;
    }
    assert(hits@.subrange(0, hits@.len() as int) =~= hits@);
    out
}

/// What a PEI detail page gives, as the markup holds it.
pub struct PeiDetail {
    /// The text of the content heading.
    pub title: Option<String>,
    /// The texts of the children of the abstract paragraph.
    pub abstract_parts: Option<Vec<String>>,
    /// The first link of the content: the download.
    pub download: Option<PageLink>,
    /// The text of the "last updated" block.
    pub updated: Option<String>,
}

/// The pieces concatenated.
pub open spec fn concat_all(parts: Seq<String>) -> Seq<char>
    decreases parts.len(),
{
    if parts.len() == 0 {
        Seq::empty()
    } else {
        concat_all(parts.drop_last()) + parts.last()@
    }
}

fn join_parts(parts: &Vec<String>) -> (r: String)
    ensures
        r@ == concat_all(parts@),
{
    let mut out = String::new();
    let mut i: usize = 0;
    assert(parts@.subrange(0, 0) =~= Seq::<String>::empty());
    while i < parts.len()
        invariant
            i <= parts@.len(),
            out@ == concat_all(parts@.subrange(0, i as int)),
        decreases parts@.len() - i,
    {
        assert(parts@.subrange(0, i + 1).drop_last() =~= parts@.subrange(0, i as int));
        out.append(parts[i].as_str());
        i = i + 1;
    }
    assert(parts@.subrange(0, parts@.len() as int) =~= parts@);
    out
}

pub open spec fn pei_host() -> Seq<char> {
    "https://www.pei.de"@
}

/// The text of the "last updated" block that holds the date: trimmed, and
/// what follows its last `Aktualisiert:`.
pub open spec fn updated_date_text(u: Seq<char>) -> Seq<char> {
    after_last(trim_of(u), "Aktualisiert:"@)
}

/// The publication date of a PEI letter: the date in parentheses in the
/// download link's text where there is one, else the date of the "last
/// updated" block.
pub open spec fn pei_date_of(d: PeiDetail, capture: Option<Seq<char>>) -> Option<(int, int, int)> {
    match capture {
        Some(c) => dmy_date_of(c),
        None => match d.updated {
            Some(u) => dmy_date_of(updated_date_text(u@)),
            None => None,
        },
    }
}

/// A detail page yields a letter: a title, a download link with a target and
/// a date.
pub open spec fn pei_detail_ok(d: PeiDetail, capture: Option<Seq<char>>) -> bool {
    &&& d.title is Some
    &&& d.download matches Some(l) && l.href is Some
    &&& pei_date_of(d, capture) is Some
}

/// The letter that a detail page yields, field by field.
pub open spec fn pei_detail_reads(
    b: Brief,
    url: Seq<char>,
    d: PeiDetail,
    capture: Option<Seq<char>>,
) -> bool {
    let title = trim_of(d.title->0@);
    &&& b.letter_type == letter_type_of(title)
    &&& b.source == LetterSource::PEI
    &&& b.date.wf()
    &&& pei_date_of(d, capture) == Some(b.date.triple())
    &&& b.title@ == title
    &&& b.wirkstoffe is None
    &&& b.link_to_html@ == url
    &&& b.link_to_pdf@ == pei_host() + d.download->0.href->0@
    &&& match d.abstract_parts {
        Some(p) => b.short_description matches Some(s) && s@ == concat_all(p@),
        None => b.short_description is None,
    }
    &&& b.long_description is None
}

pub open spec fn str_opt_view(o: Option<&str>) -> Option<Seq<char>> {
    match o {
        Some(s) => Some(s@),
        None => None,
    }
}

/// Reads a PEI detail page into a letter, given the date captured from the
/// download link's text, if the pattern matched.
pub fn pei_letter_from(url: &str, d: &PeiDetail, capture: Option<&str>) -> (r: Option<Brief>)
    ensures
        r is Some <==> pei_detail_ok(*d, str_opt_view(capture)),
        r matches Some(b) ==> pei_detail_reads(b, url@, *d, str_opt_view(capture)),
{
    let ghost cap = str_opt_view(capture);
    let raw_title = match &d.title {
        Some(t) => t,
        None => {
            return None;
        },
    };
    let title = trim(raw_title.as_str());
    let letter_type = classify_title(title.as_str());
    let short_description = match &d.abstract_parts {
        Some(p) => Some(join_parts(p)),
        None => None,
    };
    let link = match &d.download {
        Some(l) => l,
        None => {
            return None;
        },
    };
    let href = match &link.href {
        Some(h) => h,
        None => {
            return None;
        },
    };
    let pdf = String::from_str("https://www.pei.de").concat(href.as_str());
    let date = match capture {
        Some(c) => match parse_dmy(c) {
            Some(date) => date,
            None => {
                return None;
            },
        },
        None => match &d.updated {
            Some(u) => {
                let t = trim(u.as_str());
                let tail = text_after_last(t.as_str(), "Aktualisiert:");
                match parse_dmy(tail.as_str()) {
                    Some(date) => date,
                    None => {
                        return None;
                    },
                }
            },
            None => {
                return None;
            },
        },
    };
    Some(Brief {
        letter_type,
        source: LetterSource::PEI,
        date,
        title,
        wirkstoffe: None,
        link_to_html: String::from_str(url),
        link_to_pdf: pdf,
        short_description,
        long_description: None,
    })
}

/// The first capture group of the leftmost match of `pattern` in `text`, as
/// the regex crate finds it; none for a pattern it refuses.
pub uninterp spec fn first_capture_of(pattern: Seq<char>, text: Seq<char>) -> Option<Seq<char>>;

/// Relies on `regex::Regex::new` and `Regex::captures`: the outcome depends on
/// the pattern and the text alone.
#[verifier::external_body]
fn first_capture(pattern: &str, text: &str) -> (r: Option<String>)
    ensures
        match r {
            Some(c) => first_capture_of(pattern@, text@) == Some(c@),
            None => first_capture_of(pattern@, text@) is None,
        },
{
    let re = match regex::Regex::new(pattern) {
        Ok(re) => re,
        Err(_) => return None,
    };
    match re.captures(text) {
        Some(caps) => match caps.get(1) {
            Some(m) => Some(m.as_str().to_string()),
            None => None,
        },
        None => None,
    }
}

pub open spec fn date_pattern() -> Seq<char> {
    "\\((\\d{2}\\.\\d{2}\\.\\d{4})\\)"@
}

/// Reads a PEI detail page into a letter; the date is looked for first as
/// `(DD.MM.YYYY)` in the download link's text.
pub fn pei_letter(url: &str, d: &PeiDetail) -> (r: Option<Brief>)
    ensures
        ({
            let cap = match d.download {
                Some(l) => first_capture_of(date_pattern(), l.text@),
                None => None,
            };
            &&& r is Some <==> pei_detail_ok(*d, cap)
            &&& r matches Some(b) ==> pei_detail_reads(b, url@, *d, cap)
        }),
{
    match &d.download {
        Some(l) => {
            let cap = first_capture("\\((\\d{2}\\.\\d{2}\\.\\d{4})\\)", l.text.as_str());
            match cap {
                Some(c) => pei_letter_from(url, d, Some(c.as_str())),
                None => pei_letter_from(url, d, None),
            }
        },
        None => pei_letter_from(url, d, None),
    }
}

} // verus!
