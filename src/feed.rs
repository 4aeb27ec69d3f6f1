//! Reading a whole shortage feed: the document is split into records by
//! the csv crate, and every record is parsed on its own.
use vstd::prelude::*;
use crate::shortage::{Lieferengpass, parse_row, row_fault};

verus! {

/// A semicolon-separated document as the csv crate reads it: the header
/// record and, for each further record, its fields or `None` where the
/// reader refused the record.
pub struct CsvTable {
    pub headers: Vec<String>,
    pub rows: Vec<Option<Vec<String>>>,
}

/// Header record and records of a `;`-separated document with a header line,
/// as the csv crate's reader yields them.
pub uninterp spec fn csv_table_of(text: Seq<char>) -> (Seq<Seq<char>>, Seq<Option<Seq<Seq<char>>>>);

/// Relies on `csv::ReaderBuilder` with `;` as delimiter and records of equal
/// length (`flexible(false)`): `headers` and `records` depend on the text
/// alone. A header record the reader cannot give is taken as empty.
#[verifier::external_body]
fn read_csv(text: &str) -> (r: CsvTable)
    ensures
        (r.headers.deep_view(), r.rows.deep_view()) == csv_table_of(text@),
{
    let mut rdr = csv::ReaderBuilder::new().flexible(false).delimiter(b';').from_reader(
        text.as_bytes(),
    );
    let headers: Vec<String> = match rdr.headers() {
        Ok(h) => h.iter().map(|f| f.to_string()).collect(),
        Err(_) => Vec::new(),
    };
    let rows: Vec<Option<Vec<String>>> = rdr.records().map(
        |rec| rec.ok().map(|rec| rec.iter().map(|f| f.to_string()).collect()),
    ).collect();
    CsvTable { headers, rows }
}

/// The records of a table that are valid reports, in their order.
pub open spec fn valid_rows(h: Seq<Seq<char>>, rows: Seq<Option<Seq<Seq<char>>>>) -> Seq<
    Seq<Seq<char>>,
>
    decreases rows.len(),
{
    if rows.len() == 0 {
        Seq::empty()
    } else {
        let p = valid_rows(h, rows.drop_last());
        match rows.last() {
            Some(row) => if row_fault(h, row) is None {
                p.push(row)
            } else {
                p
            },
            None => p,
        }
    }
}

/// Records are read independently: the valid reports of two runs of records
/// one after the other are those of the first run followed by those of the
/// second, so a refused record never changes what the others yield.
pub proof fn lemma_rows_independent(
    h: Seq<Seq<char>>,
    a: Seq<Option<Seq<Seq<char>>>>,
    b: Seq<Option<Seq<Seq<char>>>>,
)
    ensures
        valid_rows(h, a + b) == valid_rows(h, a) + valid_rows(h, b),
    decreases b.len(),
{
    if b.len() == 0 {
        assert(a + b =~= a);
        assert(valid_rows(h, a) + valid_rows(h, b) =~= valid_rows(h, a));
    } else {
        lemma_rows_independent(h, a, b.drop_last());
        assert((a + b).drop_last() =~= a + b.drop_last());
        assert((a + b).last() == b.last());
        let p = valid_rows(h, a);
        let q = valid_rows(h, b.drop_last());
        match b.last() {
            Some(row) => {
                if row_fault(h, row) is None {
                    assert(p + q.push(row) =~= (p + q).push(row));
                }
            },
            None => {},
        }
    }
}

/// A record that the row parser refuses adds no report to those of the
/// records before it.
pub proof fn lemma_bad_row_skipped(
    h: Seq<Seq<char>>,
    rows: Seq<Option<Seq<Seq<char>>>>,
    bad: Seq<Seq<char>>,
)
    requires
        row_fault(h, bad) is Some,
    ensures
        valid_rows(h, rows.push(Some(bad))) == valid_rows(h, rows),
{
    assert(rows.push(Some(bad)).drop_last() =~= rows);
}

/// Parses every record of a table, keeping the valid reports in order and
/// skipping the others.
pub fn parse_table(headers: &Vec<String>, rows: &Vec<Option<Vec<String>>>) -> (r: Vec<
    Lieferengpass,
>)
    ensures
        r@.len() == valid_rows(headers.deep_view(), rows.deep_view()).len(),
        forall|k: int|
            0 <= k < r@.len() ==> (#[trigger] r@[k]).reads(
                headers.deep_view(),
                valid_rows(headers.deep_view(), rows.deep_view())[k],
            ),
{
    let ghost h = headers.deep_view();
    let ghost rs = rows.deep_view();
    let mut out: Vec<Lieferengpass> = Vec::new();
    let mut i: usize = 0;
    assert(rs.subrange(0, 0) =~= Seq::<Option<Seq<Seq<char>>>>::empty());
    while i < rows.len()
        invariant
            i <= rows@.len(),
            h == headers.deep_view(),
            rs == rows.deep_view(),
            out@.len() == valid_rows(h, rs.subrange(0, i as int)).len(),
            forall|k: int|
                0 <= k < out@.len() ==> (#[trigger] out@[k]).reads(
                    h,
                    valid_rows(h, rs.subrange(0, i as int))[k],
                ),
        decreases rows@.len() - i,
    {
        let ghost pre = rs.subrange(0, i as int);
        let ghost nxt = rs.subrange(0, i + 1);
        assert(nxt.drop_last() =~= pre);
        assert(nxt.last() == rs[i as int]);
        match &rows[i] {
            Some(row) => {
                assert(rs[i as int] == Some(row.deep_view()));
                match parse_row(headers, row) {
                    Ok(l) => {
                        out.push(l);
                    },
                    Err(_) => {},
                }
            },
            None => {},
        }
        i = i + 1;
    }
    assert(rs.subrange(0, rows@.len() as int) =~= rs);
    out
}

/// Reads a feed document into the reports of its valid records.
pub fn parse_feed(text: &str) -> (r: Vec<Lieferengpass>)
    ensures
        ({
            let (h, rows) = csv_table_of(text@);
            &&& r@.len() == valid_rows(h, rows).len()
            &&& forall|k: int| 0 <= k < r@.len() ==> (#[trigger] r@[k]).reads(h, valid_rows(h, rows)[k])
        }),
{
    let table = read_csv(text);
    parse_table(&table.headers, &table.rows)
}

} // verus!
