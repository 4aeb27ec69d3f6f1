//! Shortage reports: the feed's columns, the row parser and the reading of a
//! whole feed document.
use vstd::prelude::*;
use crate::date::Date;
use crate::fields::{
    ArtDesGrundes, InfoAnFachkreise, Klassifikation, Meldungsart, bool_ja_nein, de_date, de_enrs,
    deserialize_na_option, date_cell_of, enrs_of, flag_of, grund_of, info_of, klassifikation_of,
    meldungsart_of, na_of,
};
use crate::text::{parse_usize, str_eq, usize_of};

verus! {

/// A column of the shortage feed.
#[derive(Clone, Copy, Debug, PartialEq, Eq, Structural)]
pub enum Column {
    Pzn,
    Enr,
    Bearbeitungsnummer,
    Erstmeldung,
    ErstmeldungDatum,
    Meldungsart,
    Beginn,
    Ende,
    LetzteMeldung,
    ArtDesGrundes,
    Arzneimittelbezeichnung,
    Atc,
    Wirkstoffe,
    KkhRelevant,
    Zulassungsinhaber,
    Grund,
    AnmerkungZumGrund,
    Alternativpraeparat,
    InfoAnFachkreise,
    Darreichungsform,
    Klassifikation,
}

impl Column {
    pub open spec fn header_spec(self) -> Seq<char> {
        match self {
            Column::Pzn => "PZN"@,
            Column::Enr => "ENR"@,
            Column::Bearbeitungsnummer => "Bearbeitungsnummer"@,
            Column::Erstmeldung => "Referenzierte Erstmeldung"@,
            Column::ErstmeldungDatum => "Datum der Erstmeldung"@,
            Column::Meldungsart => "Meldungsart"@,
            Column::Beginn => "Beginn"@,
            Column::Ende => "Ende"@,
            Column::LetzteMeldung => "Datum der letzten Meldung"@,
            Column::ArtDesGrundes => "Art des Grundes"@,
            Column::Arzneimittelbezeichnung => "Arzneimittlbezeichnung"@,
            Column::Atc => "Atc Code"@,
            Column::Wirkstoffe => "Wirkstoffe"@,
            Column::KkhRelevant => "Krankenhausrelevant"@,
            Column::Zulassungsinhaber => "Zulassungsinhaber"@,
            Column::Grund => "Grund"@,
            Column::AnmerkungZumGrund => "Anm. zum Grund"@,
            Column::Alternativpraeparat => "Alternativpr\u{e4}parat"@,
            Column::InfoAnFachkreise => "Info an Fachkreise"@,
            Column::Darreichungsform => "Darreichungsform"@,
            Column::Klassifikation => "klassifikation"@,
        }
    }

    /// The header under which the column appears in the feed.
    pub fn header(self) -> (r: &'static str)
        ensures
            r@ == self.header_spec(),
    {
        match self {
            Column::Pzn => "PZN",
            Column::Enr => "ENR",
            Column::Bearbeitungsnummer => "Bearbeitungsnummer",
            Column::Erstmeldung => "Referenzierte Erstmeldung",
            Column::ErstmeldungDatum => "Datum der Erstmeldung",
            Column::Meldungsart => "Meldungsart",
            Column::Beginn => "Beginn",
            Column::Ende => "Ende",
            Column::LetzteMeldung => "Datum der letzten Meldung",
            Column::ArtDesGrundes => "Art des Grundes",
            Column::Arzneimittelbezeichnung => "Arzneimittlbezeichnung",
            Column::Atc => "Atc Code",
            Column::Wirkstoffe => "Wirkstoffe",
            Column::KkhRelevant => "Krankenhausrelevant",
            Column::Zulassungsinhaber => "Zulassungsinhaber",
            Column::Grund => "Grund",
            Column::AnmerkungZumGrund => "Anm. zum Grund",
            Column::Alternativpraeparat => "Alternativpr\u{e4}parat",
            Column::InfoAnFachkreise => "Info an Fachkreise",
            Column::Darreichungsform => "Darreichungsform",
            Column::Klassifikation => "klassifikation",
        }
    }

    /// Whether `v` is an acceptable value for this column.
    pub open spec fn accepts(self, v: Seq<char>) -> bool {
        match self {
            Column::Pzn => usize_of(v) is Some,
            Column::Enr => enrs_of(v) is Some,
            Column::ErstmeldungDatum | Column::Beginn | Column::Ende
            | Column::LetzteMeldung => date_cell_of(v) is Some,
            Column::Meldungsart => meldungsart_of(v) is Some,
            Column::ArtDesGrundes => grund_of(v) is Some,
            Column::KkhRelevant => flag_of(v) is Some,
            Column::InfoAnFachkreise => info_of(v) is Some,
            Column::Klassifikation => klassifikation_of(v) is Some,
            _ => true,
        }
    }

    /// Checks a value for this column.
    pub fn check(self, v: &str) -> (r: bool)
        ensures
            r == self.accepts(v@),
    {
        match self {
            Column::Pzn => parse_usize(v).is_some(),
            Column::Enr => de_enrs(v).is_some(),
            Column::ErstmeldungDatum | Column::Beginn | Column::Ende
            | Column::LetzteMeldung => de_date(v).is_some(),
            Column::Meldungsart => Meldungsart::from_token(v).is_some(),
            Column::ArtDesGrundes => ArtDesGrundes::from_token(v).is_some(),
            Column::KkhRelevant => bool_ja_nein(v).is_some(),
            Column::InfoAnFachkreise => InfoAnFachkreise::from_token(v).is_some(),
            Column::Klassifikation => Klassifikation::from_token(v).is_some(),
            _ => true,
        }
    }
}

/// Every column, in the order in which a row is checked.
pub open spec fn all_columns() -> Seq<Column> {
    seq![
        Column::Pzn, Column::Enr, Column::Bearbeitungsnummer, Column::Erstmeldung,
        Column::ErstmeldungDatum, Column::Meldungsart, Column::Beginn, Column::Ende,
        Column::LetzteMeldung, Column::ArtDesGrundes, Column::Arzneimittelbezeichnung,
        Column::Atc, Column::Wirkstoffe, Column::KkhRelevant, Column::Zulassungsinhaber,
        Column::Grund, Column::AnmerkungZumGrund, Column::Alternativpraeparat,
        Column::InfoAnFachkreise, Column::Darreichungsform, Column::Klassifikation,
    ]
}

pub open spec fn column_pos(c: Column) -> int {
    match c {
        Column::Pzn => 0,
        Column::Enr => 1,
        Column::Bearbeitungsnummer => 2,
        Column::Erstmeldung => 3,
        Column::ErstmeldungDatum => 4,
        Column::Meldungsart => 5,
        Column::Beginn => 6,
        Column::Ende => 7,
        Column::LetzteMeldung => 8,
        Column::ArtDesGrundes => 9,
        Column::Arzneimittelbezeichnung => 10,
        Column::Atc => 11,
        Column::Wirkstoffe => 12,
        Column::KkhRelevant => 13,
        Column::Zulassungsinhaber => 14,
        Column::Grund => 15,
        Column::AnmerkungZumGrund => 16,
        Column::Alternativpraeparat => 17,
        Column::InfoAnFachkreise => 18,
        Column::Darreichungsform => 19,
        Column::Klassifikation => 20,
    }
}

/// Why a row was refused.
#[derive(Clone, Copy, Debug, PartialEq, Eq, Structural)]
pub enum RowError {
    /// The header lacks the column, or the row is too short to reach it.
    MissingField(Column),
    /// The column's value is not one the column accepts.
    InvalidValue(Column),
}

/// Position of the first header at or after `i` equal to `name`, or -1.
pub open spec fn index_from(h: Seq<Seq<char>>, name: Seq<char>, i: int) -> int
    decreases h.len() - i,
{
    if i < 0 || i >= h.len() {
        -1
    } else if h[i] == name {
        i
    } else {
        index_from(h, name, i + 1)
    }
}

/// The row's value in column `c`, found by the first header that names it.
pub open spec fn cell(h: Seq<Seq<char>>, row: Seq<Seq<char>>, c: Column) -> Option<Seq<char>> {
    let i = index_from(h, c.header_spec(), 0);
    if 0 <= i < row.len() {
        Some(row[i])
    } else {
        None
    }
}

/// The row's value in column `c`, for a column known to be present.
pub open spec fn cell_value(h: Seq<Seq<char>>, row: Seq<Seq<char>>, c: Column) -> Seq<char> {
    cell(h, row, c)->0
}

/// What is wrong with column `c` of the row, if anything.
pub open spec fn column_fault(h: Seq<Seq<char>>, row: Seq<Seq<char>>, c: Column) -> Option<
    RowError,
> {
    match cell(h, row, c) {
        None => Some(RowError::MissingField(c)),
        Some(v) => if c.accepts(v) {
            None
        } else {
            Some(RowError::InvalidValue(c))
        },
    }
}

/// The first fault among the columns `cs`, in their order.
pub open spec fn first_fault(h: Seq<Seq<char>>, row: Seq<Seq<char>>, cs: Seq<Column>) -> Option<
    RowError,
>
    decreases cs.len(),
{
    if cs.len() == 0 {
        None
    } else {
        match column_fault(h, row, cs[0]) {
            Some(e) => Some(e),
            None => first_fault(h, row, cs.drop_first()),
        }
    }
}

/// The fault that refuses the row, or none where the row is a valid report.
pub open spec fn row_fault(h: Seq<Seq<char>>, row: Seq<Seq<char>>) -> Option<RowError> {
    first_fault(h, row, all_columns())
}

pub open spec fn opt_view(o: Option<String>) -> Option<Seq<char>> {
    match o {
        Some(s) => Some(s@),
        None => None,
    }
}

/// One drug-shortage notice.
#[derive(Clone, Debug)]
pub struct Lieferengpass {
    pub pzn: usize,
    pub enr: Vec<usize>,
    pub bearbeitungsnummer: String,
    pub erstmeldung: Option<String>,
    pub erstmeldung_datum: Date,
    pub meldungsart: Meldungsart,
    pub beginn: Date,
    pub ende: Date,
    pub letzte_meldung: Date,
    pub art_des_grundes: ArtDesGrundes,
    pub arzneimittelbezeichnung: String,
    pub atc: String,
    pub wirkstoffe: String,
    pub kkh_relevant: bool,
    pub zulassungsinhaber: String,
    pub grund: String,
    pub anmerkung_zum_grund: Option<String>,
    pub alternativpraeparat: Option<String>,
    pub info_an_fachkreise: InfoAnFachkreise,
    pub darreichungsform: String,
    pub klassifikation: Klassifikation,
}

impl Lieferengpass {
    /// Every date of the report is a calendar date.
    pub open spec fn wf(&self) -> bool {
        &&& self.erstmeldung_datum.wf()
        &&& self.beginn.wf()
        &&& self.ende.wf()
        &&& self.letzte_meldung.wf()
    }

    /// The report holds what the row says, field by field.
    pub open spec fn reads(&self, h: Seq<Seq<char>>, row: Seq<Seq<char>>) -> bool {
        &&& self.wf()
        &&& usize_of(cell_value(h, row, Column::Pzn)) == Some(self.pzn)
        &&& enrs_of(cell_value(h, row, Column::Enr)) == Some(self.enr@)
        &&& self.bearbeitungsnummer@ == cell_value(h, row, Column::Bearbeitungsnummer)
        &&& opt_view(self.erstmeldung) == na_of(cell_value(h, row, Column::Erstmeldung))
        &&& date_cell_of(cell_value(h, row, Column::ErstmeldungDatum)) == Some(
            self.erstmeldung_datum.triple(),
        )
        &&& meldungsart_of(cell_value(h, row, Column::Meldungsart)) == Some(self.meldungsart)
        &&& date_cell_of(cell_value(h, row, Column::Beginn)) == Some(self.beginn.triple())
        &&& date_cell_of(cell_value(h, row, Column::Ende)) == Some(self.ende.triple())
        &&& date_cell_of(cell_value(h, row, Column::LetzteMeldung)) == Some(
            self.letzte_meldung.triple(),
        )
        &&& grund_of(cell_value(h, row, Column::ArtDesGrundes)) == Some(self.art_des_grundes)
        &&& self.arzneimittelbezeichnung@ == cell_value(h, row, Column::Arzneimittelbezeichnung)
        &&& self.atc@ == cell_value(h, row, Column::Atc)
        &&& self.wirkstoffe@ == cell_value(h, row, Column::Wirkstoffe)
        &&& flag_of(cell_value(h, row, Column::KkhRelevant)) == Some(self.kkh_relevant)
        &&& self.zulassungsinhaber@ == cell_value(h, row, Column::Zulassungsinhaber)
        &&& self.grund@ == cell_value(h, row, Column::Grund)
        &&& opt_view(self.anmerkung_zum_grund) == na_of(
            cell_value(h, row, Column::AnmerkungZumGrund),
        )
        &&& opt_view(self.alternativpraeparat) == na_of(
            cell_value(h, row, Column::Alternativpraeparat),
        )
        &&& info_of(cell_value(h, row, Column::InfoAnFachkreise)) == Some(self.info_an_fachkreise)
        &&& self.darreichungsform@ == cell_value(h, row, Column::Darreichungsform)
        &&& klassifikation_of(cell_value(h, row, Column::Klassifikation)) == Some(
            self.klassifikation,
        )
    }
}

/// Finds the value of column `c` in a row.
pub fn cell_text<'a>(headers: &Vec<String>, row: &'a Vec<String>, c: Column) -> (r: Option<
    &'a String,
>)
    ensures
        match r {
            Some(v) => cell(headers.deep_view(), row.deep_view(), c) == Some(v@),
            None => cell(headers.deep_view(), row.deep_view(), c) is None,
        },
{
    let ghost h = headers.deep_view();
    let name = c.header();
    let mut j: usize = 0;
    while j < headers.len()
        invariant
            j <= headers@.len(),
            h == headers.deep_view(),
            name@ == c.header_spec(),
            index_from(h, name@, j as int) == index_from(h, name@, 0),
        decreases headers@.len() - j,
    {
        assert(h[j as int] == headers@[j as int]@);
        if str_eq(headers[j].as_str(), name) {
            if j < row.len() {
                assert(row.deep_view()[j as int] == row@[j as int]@);
                return Some(&row[j]);
            }
            return None;
        }
        j = j + 1;
    }
    None
}

fn field<'a>(headers: &Vec<String>, row: &'a Vec<String>, c: Column) -> (r: &'a String)
    requires
        column_fault(headers.deep_view(), row.deep_view(), c) is None,
    ensures
        cell(headers.deep_view(), row.deep_view(), c) == Some(r@),
        c.accepts(r@),
{
    cell_text(headers, row, c).unwrap()
}

/// Parses one row of the feed into a report, or says which column refuses it.
pub fn parse_row(headers: &Vec<String>, row: &Vec<String>) -> (r: Result<Lieferengpass, RowError>)
    ensures
        match r {
            Ok(l) => row_fault(headers.deep_view(), row.deep_view()) is None && l.reads(
                headers.deep_view(),
                row.deep_view(),
            ),
            Err(e) => row_fault(headers.deep_view(), row.deep_view()) == Some(e),
        },
{
    let ghost h = headers.deep_view();
    let ghost rw = row.deep_view();
    let cols: Vec<Column> = vec![
        Column::Pzn, Column::Enr, Column::Bearbeitungsnummer, Column::Erstmeldung,
        Column::ErstmeldungDatum, Column::Meldungsart, Column::Beginn, Column::Ende,
        Column::LetzteMeldung, Column::ArtDesGrundes, Column::Arzneimittelbezeichnung,
        Column::Atc, Column::Wirkstoffe, Column::KkhRelevant, Column::Zulassungsinhaber,
        Column::Grund, Column::AnmerkungZumGrund, Column::Alternativpraeparat,
        Column::InfoAnFachkreise, Column::Darreichungsform, Column::Klassifikation,
    ];
    assert(cols@ == all_columns());
    assert(cols@.subrange(0, cols@.len() as int) =~= cols@);
    let mut i: usize = 0;
    while i < cols.len()
        invariant
            i <= cols@.len(),
            cols@ == all_columns(),
            h == headers.deep_view(),
            rw == row.deep_view(),
            row_fault(h, rw) == first_fault(h, rw, cols@.subrange(i as int, cols@.len() as int)),
            forall|k: int| 0 <= k < i ==> column_fault(h, rw, #[trigger] cols@[k]) is None,
        decreases cols@.len() - i,
    {
        let c = cols[i];
        let ghost rest = cols@.subrange(i as int, cols@.len() as int);
        assert(rest[0] == c);
        assert(rest.drop_first() =~= cols@.subrange(i + 1, cols@.len() as int));
        match cell_text(headers, row, c) {
            None => {
                return Err(RowError::MissingField(c));
            },
            Some(v) => {
                if !c.check(v.as_str()) {
                    return Err(RowError::InvalidValue(c));
                }
            },
        }
        i = i + 1;
    }
    assert(cols@.subrange(21, 21) =~= Seq::<Column>::empty());
    assert forall|c: Column| column_fault(h, rw, c) is None by {
        assert(cols@[column_pos(c)] == c);
    }
    let pzn = parse_usize(field(headers, row, Column::Pzn).as_str()).unwrap();
    let enr = de_enrs(field(headers, row, Column::Enr).as_str()).unwrap();
    let bearbeitungsnummer = field(headers, row, Column::Bearbeitungsnummer).clone();
    let erstmeldung = deserialize_na_option(field(headers, row, Column::Erstmeldung).as_str());
    let erstmeldung_datum = de_date(field(headers, row, Column::ErstmeldungDatum).as_str()).unwrap();
    let meldungsart = Meldungsart::from_token(field(headers, row, Column::Meldungsart).as_str()).unwrap();
    let beginn = de_date(field(headers, row, Column::Beginn).as_str()).unwrap();
    let ende = de_date(field(headers, row, Column::Ende).as_str()).unwrap();
    let letzte_meldung = de_date(field(headers, row, Column::LetzteMeldung).as_str()).unwrap();
    let art_des_grundes = ArtDesGrundes::from_token(
        field(headers, row, Column::ArtDesGrundes).as_str(),
    ).unwrap();
    let arzneimittelbezeichnung = field(headers, row, Column::Arzneimittelbezeichnung).clone();
    let atc = field(headers, row, Column::Atc).clone();
    let wirkstoffe = field(headers, row, Column::Wirkstoffe).clone();
    let kkh_relevant = bool_ja_nein(field(headers, row, Column::KkhRelevant).as_str()).unwrap();
    let zulassungsinhaber = field(headers, row, Column::Zulassungsinhaber).clone();
    let grund = field(headers, row, Column::Grund).clone();
    let anmerkung_zum_grund = deserialize_na_option(
        field(headers, row, Column::AnmerkungZumGrund).as_str(),
    );
    let alternativpraeparat = deserialize_na_option(
        field(headers, row, Column::Alternativpraeparat).as_str(),
    );
    let info_an_fachkreise = InfoAnFachkreise::from_token(
        field(headers, row, Column::InfoAnFachkreise).as_str(),
    ).unwrap();
    let darreichungsform = field(headers, row, Column::Darreichungsform).clone();
    let klassifikation = Klassifikation::from_token(
        field(headers, row, Column::Klassifikation).as_str(),
    ).unwrap();
    Ok(Lieferengpass {
        pzn,
        enr,
        bearbeitungsnummer,
        erstmeldung,
        erstmeldung_datum,
        meldungsart,
        beginn,
        ende,
        letzte_meldung,
        art_des_grundes,
        arzneimittelbezeichnung,
        atc,
        wirkstoffe,
        kkh_relevant,
        zulassungsinhaber,
        grund,
        anmerkung_zum_grund,
        alternativpraeparat,
        info_an_fachkreise,
        darreichungsform,
        klassifikation,
    })
}

} // verus!
