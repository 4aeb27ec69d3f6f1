use pharma_watch::date::{parse_dmy, Date};
use pharma_watch::feed::parse_feed;
use pharma_watch::fields::{
    bool_ja_nein, de_date, de_enrs, deserialize_na_option, ArtDesGrundes, InfoAnFachkreise,
    Klassifikation, Meldungsart,
};
use pharma_watch::shortage::{parse_row, Column, RowError};
use pharma_watch::store::{ApiResponse, InnerStorage};

const HEADER: &str = "PZN;ENR;Bearbeitungsnummer;Referenzierte Erstmeldung;Datum der Erstmeldung;Meldungsart;Beginn;Ende;Datum der letzten Meldung;Art des Grundes;Arzneimittlbezeichnung;Atc Code;Wirkstoffe;Krankenhausrelevant;Zulassungsinhaber;Grund;Anm. zum Grund;Alternativpr\u{e4}parat;Info an Fachkreise;Darreichungsform;klassifikation";

fn row(pzn: &str, date: &str, kkh: &str) -> String {
    format!(
        "{pzn};123, 456;BN-1;n/a;01.02.2024;Erstmeldung;{date};31.03.2024;05.02.2024;Produktionsproblem;Aspirin 500;N02BA01;Acetylsalicyls\u{e4}ure;{kkh};Bayer;Engpass; N/A ;Keine Alternative;Nein;Tablette;versrel"
    )
}

fn strings(v: &[&str]) -> Vec<String> {
    v.iter().map(|s| s.to_string()).collect()
}

fn header_vec() -> Vec<String> {
    HEADER.split(';').map(|s| s.to_string()).collect()
}

#[test]
fn date_reads_day_month_year() {
    assert_eq!(parse_dmy("03.02.2024"), Some(Date { year: 2024, month: 2, day: 3 }));
    assert_eq!(parse_dmy("29.02.2023"), None);
    assert_eq!(parse_dmy("2024-02-03"), None);
    assert_eq!(de_date("  31.12.1999 "), Some(Date { year: 1999, month: 12, day: 31 }));
}

#[test]
fn flags_accept_both_vocabularies() {
    assert_eq!(bool_ja_nein("Ja"), Some(true));
    assert_eq!(bool_ja_nein(" TRUE "), Some(true));
    assert_eq!(bool_ja_nein("1"), Some(true));
    assert_eq!(bool_ja_nein("nein"), Some(false));
    assert_eq!(bool_ja_nein("False"), Some(false));
    assert_eq!(bool_ja_nein("0"), Some(false));
    assert_eq!(bool_ja_nein("vielleicht"), None);
    assert_eq!(bool_ja_nein(""), None);
}

#[test]
fn registration_numbers_are_a_list() {
    assert_eq!(de_enrs("123, 456 ,7"), Some(vec![123, 456, 7]));
    assert_eq!(de_enrs("42"), Some(vec![42]));
    assert_eq!(de_enrs("+5"), Some(vec![5]));
    assert_eq!(de_enrs("12,x"), None);
    assert_eq!(de_enrs(""), None);
    assert_eq!(de_enrs("1,,2"), None);
    assert_eq!(de_enrs("99999999999999999999999"), None);
}

#[test]
fn not_applicable_text_is_absent() {
    assert_eq!(deserialize_na_option("n/a"), None);
    assert_eq!(deserialize_na_option(" N/A "), None);
    assert_eq!(deserialize_na_option("   "), None);
    assert_eq!(deserialize_na_option("  Rezeptur  "), Some("Rezeptur".to_string()));
}

#[test]
fn enumerated_tokens_match_exactly() {
    assert_eq!(Meldungsart::from_token("\u{c4}nderungsmeldung"), Some(Meldungsart::Aenderungsmeldung));
    assert_eq!(Meldungsart::from_token("L\u{f6}schmeldung"), Some(Meldungsart::Loeschmeldung));
    assert_eq!(Meldungsart::from_token("erstmeldung"), None);
    assert_eq!(InfoAnFachkreise::from_token("N/A"), Some(InfoAnFachkreise::Unbekannt));
    assert_eq!(InfoAnFachkreise::from_token("Vorgesehen"), Some(InfoAnFachkreise::Vorgesehen));
    assert_eq!(ArtDesGrundes::from_token("Sonstige"), Some(ArtDesGrundes::Sonstige));
    assert_eq!(
        Klassifikation::from_token("verskri (auch versrel)"),
        Some(Klassifikation::VersorgungsrelevantAuchVersorgungskritisch)
    );
    assert_eq!(Klassifikation::from_token("kritisch"), None);
}

#[test]
fn valid_row_round_trips() {
    let h = header_vec();
    let r: Vec<String> = row("1234567", "03.02.2024", "Ja").split(';').map(|s| s.to_string()).collect();
    let l = parse_row(&h, &r).ok().unwrap();
    assert_eq!(l.pzn, 1234567);
    assert_eq!(l.enr, vec![123, 456]);
    assert_eq!(l.bearbeitungsnummer, "BN-1");
    assert_eq!(l.erstmeldung, None);
    assert_eq!(l.erstmeldung_datum, Date { year: 2024, month: 2, day: 1 });
    assert_eq!(l.meldungsart, Meldungsart::Erstmeldung);
    assert_eq!(l.beginn, Date { year: 2024, month: 2, day: 3 });
    assert_eq!(l.ende, Date { year: 2024, month: 3, day: 31 });
    assert_eq!(l.letzte_meldung, Date { year: 2024, month: 2, day: 5 });
    assert_eq!(l.art_des_grundes, ArtDesGrundes::Produktionsproblem);
    assert_eq!(l.arzneimittelbezeichnung, "Aspirin 500");
    assert_eq!(l.atc, "N02BA01");
    assert_eq!(l.wirkstoffe, "Acetylsalicyls\u{e4}ure");
    assert!(l.kkh_relevant);
    assert_eq!(l.zulassungsinhaber, "Bayer");
    assert_eq!(l.grund, "Engpass");
    assert_eq!(l.anmerkung_zum_grund, None);
    assert_eq!(l.alternativpraeparat, Some("Keine Alternative".to_string()));
    assert_eq!(l.info_an_fachkreise, InfoAnFachkreise::Nein);
    assert_eq!(l.darreichungsform, "Tablette");
    assert_eq!(l.klassifikation, Klassifikation::Versorgungsrelevant);
}

#[test]
fn malformed_rows_name_the_column() {
    let h = header_vec();
    let split = |s: String| -> Vec<String> { s.split(';').map(|x| x.to_string()).collect() };
    assert_eq!(
        parse_row(&h, &split(row("1", "32.01.2024", "Ja"))).err(),
        Some(RowError::InvalidValue(Column::Beginn))
    );
    assert_eq!(
        parse_row(&h, &split(row("1", "03.02.2024", "vielleicht"))).err(),
        Some(RowError::InvalidValue(Column::KkhRelevant))
    );
    assert_eq!(
        parse_row(&h, &split(row("abc", "03.02.2024", "Ja"))).err(),
        Some(RowError::InvalidValue(Column::Pzn))
    );
    assert_eq!(
        parse_row(&h, &strings(&["1", "2"])).err(),
        Some(RowError::MissingField(Column::Bearbeitungsnummer))
    );
    assert_eq!(
        parse_row(&strings(&["ENR"]), &strings(&["1"])).err(),
        Some(RowError::MissingField(Column::Pzn))
    );
}

#[test]
fn feed_with_one_bad_date_keeps_two_reports() {
    let text = format!(
        "{}\n{}\n{}\n{}\n",
        HEADER,
        row("111", "03.02.2024", "Ja"),
        row("222", "3.2.24x", "Ja"),
        row("333", "04.02.2024", "nein")
    );
    let mut store = InnerStorage::new();
    assert!(matches!(store.lieferengpaesse(), ApiResponse::NotReady));
    store.apply_feed(&text);
    match store.lieferengpaesse() {
        ApiResponse::Success(v) => {
            assert_eq!(v.len(), 2);
            assert_eq!(v[0].pzn, 111);
            assert_eq!(v[1].pzn, 333);
            assert!(!v[1].kkh_relevant);
        }
        ApiResponse::NotReady => panic!("reports not ready"),
    }
    assert!(store.lieferengpaesse_loaded_initially);
}

#[test]
fn feed_refresh_replaces_the_whole_set() {
    let mut store = InnerStorage::new();
    store.apply_feed(&format!("{}\n{}\n{}\n", HEADER, row("1", "03.02.2024", "Ja"), row("2", "03.02.2024", "Ja")));
    assert_eq!(store.lieferengpaesse.len(), 2);
    store.apply_feed(&format!("{}\n{}\n", HEADER, row("3", "03.02.2024", "Ja")));
    assert_eq!(store.lieferengpaesse.len(), 1);
    assert_eq!(store.lieferengpaesse[0].pzn, 3);
}

#[test]
fn feed_row_with_wrong_field_count_is_skipped() {
    let text = format!("{}\n1;2;3\n{}\n", HEADER, row("9", "03.02.2024", "Ja"));
    let reports = parse_feed(&text);
    assert_eq!(reports.len(), 1);
    assert_eq!(reports[0].pzn, 9);
}

#[test]
fn empty_feed_yields_no_reports() {
    assert_eq!(parse_feed("").len(), 0);
    assert_eq!(parse_feed(HEADER).len(), 0);
}
