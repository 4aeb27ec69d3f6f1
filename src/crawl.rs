//! The listing phase of the two crawlers: what one index page contributes,
//! and whether the next page is to be fetched.
use vstd::prelude::*;
use crate::letters::{
    BfarmRow, Brief, PageLink, bfarm_row_letter, bfarm_row_ok, bfarm_row_reads,
    pei_listing_links, pei_links_of,
};

verus! {

/// The rows of a listing page that yield a letter, in order.
pub open spec fn letter_rows(rows: Seq<BfarmRow>) -> Seq<BfarmRow>
    decreases rows.len(),
{
    if rows.len() == 0 {
        Seq::empty()
    } else {
        let p = letter_rows(rows.drop_last());
        if bfarm_row_ok(rows.last()) {
            p.push(rows.last())
        } else {
            p
        }
    }
}

/// The letters of one BfArM listing page, in order; rows that lack what a
/// letter needs are skipped.
pub fn bfarm_page_letters(rows: &Vec<BfarmRow>) -> (r: Vec<Brief>)
    ensures
        r@.len() == letter_rows(rows@).len(),
        forall|k: int| 0 <= k < r@.len() ==> bfarm_row_reads(#[trigger] r@[k], letter_rows(rows@)[k]),
{
    let mut out: Vec<Brief> = Vec::new();
    let mut i: usize = 0;
    assert(rows@.subrange(0, 0) =~= Seq::<BfarmRow>::empty());
    while i < rows.len()
        invariant
            i <= rows@.len(),
            out@.len() == letter_rows(rows@.subrange(0, i as int)).len(),
            forall|k: int| 0 <= k < out@.len() ==> bfarm_row_reads(
                #[trigger] out@[k],
                letter_rows(rows@.subrange(0, i as int))[k],
            ),
        decreases rows@.len() - i,
    {
        let ghost nxt = rows@.subrange(0, i + 1);
        assert(nxt.drop_last() =~= rows@.subrange(0, i as int));
        assert(nxt.last() == rows@[i as int]);
        match bfarm_row_letter(&rows[i]) {
            Some(b) => {
                out.push(b);
            },
            None => {},
        }
        i = i + 1;
    }
    assert(rows@.subrange(0, rows@.len() as int) =~= rows@);
    out
}

/// The next BfArM listing page to fetch after `page`: none where the page had
/// no table, no rows, or no row that yields a letter.
pub fn bfarm_next_page(page: usize, table: Option<&Vec<BfarmRow>>) -> (r: (Vec<Brief>, Option<usize>))
    ensures
        match table {
            None => r.0@.len() == 0 && r.1 is None,
            Some(rows) => {
                &&& r.0@.len() == letter_rows(rows@).len()
                &&& forall|k: int| 0 <= k < r.0@.len() ==> bfarm_row_reads(#[trigger] r.0@[k], letter_rows(rows@)[k])
                &&& r.1 == if letter_rows(rows@).len() > 0 && page < usize::MAX {
                    Some((page + 1) as usize)
                } else {
                    None
                }
            },
        },
{
    match table {
        None => (Vec::new(), None),
        Some(rows) => {
            let letters = bfarm_page_letters(rows);
            if letters.len() > 0 && page < usize::MAX {
                (letters, Some(page + 1))
            } else {
                (letters, None)
            }
        },
    }
}

/// The next PEI search page to fetch after `page`, with the letters' addresses
/// found on it: none once a page has no search hits.
pub fn pei_next_page(page: usize, hits: &Vec<PageLink>) -> (r: (Vec<String>, Option<usize>))
    ensures
        r.0.deep_view() == pei_links_of(hits@),
        r.1 == if hits@.len() > 0 && page < usize::MAX {
            Some((page + 1) as usize)
        } else {
            None
        },
{
    let links = pei_listing_links(hits);
    if hits.len() > 0 && page < usize::MAX {
        (links, Some(page + 1))
    } else {
        (links, None)
    }
}

} // verus!
