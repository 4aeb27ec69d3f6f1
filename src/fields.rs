//! Field-level readers of the shortage feed: dates, yes/no flags,
//! registration-number lists, "not applicable" text and the fixed
//! vocabularies of the enumerated columns.
use vstd::prelude::*;
use crate::date::{Date, parse_dmy, dmy_date_of};
use crate::text::{
    trim, trim_of, eq_ignore_ascii_case, eq_ignore_case, str_eq, split_at_chars, split_on,
    parse_usize, usize_of,
};

verus! {

/// Supply criticality of a shortage.
#[derive(Clone, Copy, Debug, PartialEq, Eq, Structural)]
pub enum Klassifikation {
    WederVersorgungsrelevantNochVersorgungskritisch,
    Versorgungsrelevant,
    VersorgungsrelevantAuchVersorgungskritisch,
}

/// Whether professionals have been informed.
#[derive(Clone, Copy, Debug, PartialEq, Eq, Structural)]
pub enum InfoAnFachkreise {
    Nein,
    Ja,
    Vorgesehen,
    Unbekannt,
}

/// Kind of reason given for a shortage.
#[derive(Clone, Copy, Debug, PartialEq, Eq, Structural)]
pub enum ArtDesGrundes {
    Produktionsproblem,
    Sonstige,
}

/// Kind of notice: initial, amendment or retraction.
#[derive(Clone, Copy, Debug, PartialEq, Eq, Structural)]
pub enum Meldungsart {
    Erstmeldung,
    Aenderungsmeldung,
    Loeschmeldung,
}

pub open spec fn klassifikation_of(s: Seq<char>) -> Option<Klassifikation> {
    if s == "weder versrel noch verskri"@ {
        Some(Klassifikation::WederVersorgungsrelevantNochVersorgungskritisch)
    } else if s == "versrel"@ {
        Some(Klassifikation::Versorgungsrelevant)
    } else if s == "verskri (auch versrel)"@ {
        Some(Klassifikation::VersorgungsrelevantAuchVersorgungskritisch)
    } else {
        None
    }
}

pub open spec fn info_of(s: Seq<char>) -> Option<InfoAnFachkreise> {
    if s == "Nein"@ {
        Some(InfoAnFachkreise::Nein)
    } else if s == "Ja"@ {
        Some(InfoAnFachkreise::Ja)
    } else if s == "Vorgesehen"@ {
        Some(InfoAnFachkreise::Vorgesehen)
    } else if s == "N/A"@ {
        Some(InfoAnFachkreise::Unbekannt)
    } else {
        None
    }
}

pub open spec fn grund_of(s: Seq<char>) -> Option<ArtDesGrundes> {
    if s == "Produktionsproblem"@ {
        Some(ArtDesGrundes::Produktionsproblem)
    } else if s == "Sonstige"@ {
        Some(ArtDesGrundes::Sonstige)
    } else {
        None
    }
}

pub open spec fn meldungsart_of(s: Seq<char>) -> Option<Meldungsart> {
    if s == "Erstmeldung"@ {
        Some(Meldungsart::Erstmeldung)
    } else if s == "\u{c4}nderungsmeldung"@ {
        Some(Meldungsart::Aenderungsmeldung)
    } else if s == "L\u{f6}schmeldung"@ {
        Some(Meldungsart::Loeschmeldung)
    } else {
        None
    }
}

impl Klassifikation {
    /// Reads the feed's token for a classification; the token must match exactly.
    pub fn from_token(s: &str) -> (r: Option<Klassifikation>)
        ensures
            r == klassifikation_of(s@),
    {
        if str_eq(s, "weder versrel noch verskri") {
            Some(Klassifikation::WederVersorgungsrelevantNochVersorgungskritisch)
        } else if str_eq(s, "versrel") {
            Some(Klassifikation::Versorgungsrelevant)
        } else if str_eq(s, "verskri (auch versrel)") {
            Some(Klassifikation::VersorgungsrelevantAuchVersorgungskritisch)
        } else {
            None
        }
    }
}

impl InfoAnFachkreise {
    /// Reads the feed's token for the information status; `N/A` is unknown.
    pub fn from_token(s: &str) -> (r: Option<InfoAnFachkreise>)
        ensures
            r == info_of(s@),
    {
        if str_eq(s, "Nein") {
            Some(InfoAnFachkreise::Nein)
        } else if str_eq(s, "Ja") {
            Some(InfoAnFachkreise::Ja)
        } else if str_eq(s, "Vorgesehen") {
            Some(InfoAnFachkreise::Vorgesehen)
        } else if str_eq(s, "N/A") {
            Some(InfoAnFachkreise::Unbekannt)
        } else {
            None
        }
    }
}

impl ArtDesGrundes {
    /// Reads the feed's token for the kind of reason.
    pub fn from_token(s: &str) -> (r: Option<ArtDesGrundes>)
        ensures
            r == grund_of(s@),
    {
        if str_eq(s, "Produktionsproblem") {
            Some(ArtDesGrundes::Produktionsproblem)
        } else if str_eq(s, "Sonstige") {
            Some(ArtDesGrundes::Sonstige)
        } else {
            None
        }
    }
}

impl Meldungsart {
    /// Reads the feed's token for the kind of notice.
    pub fn from_token(s: &str) -> (r: Option<Meldungsart>)
        ensures
            r == meldungsart_of(s@),
    {
        if str_eq(s, "Erstmeldung") {
            Some(Meldungsart::Erstmeldung)
        } else if str_eq(s, "\u{c4}nderungsmeldung") {
            Some(Meldungsart::Aenderungsmeldung)
        } else if str_eq(s, "L\u{f6}schmeldung") {
            Some(Meldungsart::Loeschmeldung)
        } else {
            None
        }
    }
}

/// A yes/no cell: after trimming, `ja`, `true` or `1` is yes and `nein`,
/// `false` or `0` is no, ASCII case ignored; anything else is refused.
pub open spec fn flag_of(s: Seq<char>) -> Option<bool> {
    let t = trim_of(s);
    if eq_ignore_case(t, "ja"@) || eq_ignore_case(t, "true"@) || eq_ignore_case(t, "1"@) {
        Some(true)
    } else if eq_ignore_case(t, "nein"@) || eq_ignore_case(t, "false"@) || eq_ignore_case(t, "0"@) {
        Some(false)
    } else {
        None
    }
}

/// Reads a yes/no cell.
pub fn bool_ja_nein(s: &str) -> (r: Option<bool>)
    ensures
        r == flag_of(s@),
{
    let t = trim(s);
    let t = t.as_str();
    if eq_ignore_ascii_case(t, "ja") || eq_ignore_ascii_case(t, "true") || eq_ignore_ascii_case(t, "1") {
        Some(true)
    } else if eq_ignore_ascii_case(t, "nein") || eq_ignore_ascii_case(t, "false")
        || eq_ignore_ascii_case(t, "0") {
        Some(false)
    } else {
        None
    }
}

/// A comma-separated list of registration numbers, each trimmed and read as
/// a non-negative integer; one bad entry refuses the whole list.
pub open spec fn enrs_of(s: Seq<char>) -> Option<Seq<usize>> {
    let p = split_on(s, ',', ',');
    if forall|i: int| 0 <= i < p.len() ==> usize_of(trim_of(#[trigger] p[i])) is Some {
        Some(Seq::new(p.len(), |i: int| usize_of(trim_of(p[i]))->0))
    } else {
        None
    }
}

/// Reads a list of registration numbers.
pub fn de_enrs(s: &str) -> (r: Option<Vec<usize>>)
    ensures
        match r {
            Some(v) => enrs_of(s@) == Some(v@),
            None => enrs_of(s@) is None,
        },
{
    let parts = split_at_chars(s, ',', ',');
    let ghost p = split_on(s@, ',', ',');
    assert(parts.deep_view() == p);
    let mut out: Vec<usize> = Vec::new();
    let mut i: usize = 0;
    while i < parts.len()
        invariant
            i <= parts@.len(),
            parts.deep_view() == p,
            p == split_on(s@, ',', ','),
            out@.len() == i,
            forall|k: int| 0 <= k < i ==> usize_of(trim_of(#[trigger] p[k])) == Some(out@[k]),
        decreases parts@.len() - i,
    {
        assert(p[i as int] == parts@[i as int]@);
        let t = trim(parts[i].as_str());
        match parse_usize(t.as_str()) {
            Some(v) => {
                out.push(v);
            },
            None => {
                return None;
            },
        }
        i = i + 1;
    }
    assert(out@ =~= Seq::new(p.len(), |k: int| usize_of(trim_of(p[k]))->0));
    Some(out)
}

/// An optional text cell: trimmed, with `n/a` (any ASCII case) or nothing
/// meaning absent.
pub open spec fn na_of(s: Seq<char>) -> Option<Seq<char>> {
    let t = trim_of(s);
    if eq_ignore_case(t, "n/a"@) || t.len() == 0 {
        None
    } else {
        Some(t)
    }
}

/// Reads an optional text cell.
pub fn deserialize_na_option(s: &str) -> (r: Option<String>)
    ensures
        match r {
            Some(v) => na_of(s@) == Some(v@),
            None => na_of(s@) is None,
        },
{
    let t = trim(s);
    if eq_ignore_ascii_case(t.as_str(), "n/a") || t.as_str().unicode_len() == 0 {
        None
    } else {
        Some(t)
    }
}

/// A date cell: trimmed, then read as `DD.MM.YYYY`.
pub open spec fn date_cell_of(s: Seq<char>) -> Option<(int, int, int)> {
    dmy_date_of(trim_of(s))
}

/// Reads a date cell.
pub fn de_date(s: &str) -> (r: Option<Date>)
    ensures
        match r {
            Some(d) => date_cell_of(s@) == Some(d.triple()) && d.wf(),
            None => date_cell_of(s@) is None,
        },
{
    let t = trim(s);
    parse_dmy(t.as_str())
}

} // verus!
