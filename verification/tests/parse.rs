use catalog_records::parse::ParseStatus;

fn pair(k: &str, v: &str) -> (String, String) {
    (k.to_string(), v.to_string())
}

#[test]
fn a_row_is_read_cell_by_cell() {
    let mut status = ParseStatus::SearchingTable;
    assert!(status.start_table().is_ok());
    assert!(matches!(status, ParseStatus::SearchingField));
    assert!(status.start_field().is_ok());
    assert!(matches!(status, ParseStatus::SearchingCol1));
    assert!(status.start_col().is_ok());
    assert!(status.append_new_line().is_ok());
    assert!(status.append_text("Ano da").is_ok());
    assert!(status.append_new_line().is_ok());
    assert!(status.append_text("Revista").is_ok());
    assert!(status.end_col().is_ok());
    assert!(matches!(&status, ParseStatus::SearchingCol2(k) if k == "Ano da Revista"));
    assert!(status.start_col().is_ok());
    assert!(status.append_text("19").is_ok());
    assert!(status.append_text("03").is_ok());
    assert!(status.end_col().is_ok());
    assert!(matches!(&status, ParseStatus::Field(k, v) if k == "Ano da Revista" && v == "1903"));
    assert_eq!(status.end_field().unwrap(), pair("Ano da Revista", "1903"));
    assert!(matches!(status, ParseStatus::SearchingField));
    assert!(status.end_table().is_ok());
    assert!(matches!(status, ParseStatus::SearchingTable));
    assert!(!status.is_finished());
    assert_eq!(status.finish(), Ok(()));
    assert!(status.is_finished());
}

#[test]
fn a_row_without_second_cell_gives_an_empty_value() {
    let mut status = ParseStatus::SearchingCol2("Página".to_string());
    assert!(status.lacks_value());
    assert_eq!(status.end_field().unwrap(), pair("Página", ""));
    assert!(matches!(status, ParseStatus::SearchingField));
}

#[test]
fn a_stream_that_ends_inside_a_row_gives_its_pair() {
    let mut status = ParseStatus::Col1("Pág".to_string());
    assert_eq!(status.finish(), Err(pair("Pág", "")));
    assert!(status.is_finished());
    let mut status = ParseStatus::SearchingCol2("Página".to_string());
    assert_eq!(status.finish(), Err(pair("Página", "")));
    let mut status = ParseStatus::Col2("Página".to_string(), "p.1".to_string());
    assert_eq!(status.finish(), Err(pair("Página", "p.1")));
    let mut status = ParseStatus::Field("Página".to_string(), "p.13".to_string());
    assert_eq!(status.finish(), Err(pair("Página", "p.13")));
    assert!(status.is_finished());
    let mut status = ParseStatus::SearchingCol1;
    assert_eq!(status.finish(), Ok(()));
    let mut status = ParseStatus::Finished;
    assert_eq!(status.finish(), Ok(()));
    assert!(status.is_finished());
}

#[test]
fn refused_events_name_the_state_and_change_nothing() {
    let mut status = ParseStatus::SearchingField;
    let e = status.start_table().unwrap_err();
    assert_eq!(e.message, "invalid state SearchingField");
    assert_eq!(e.render(), "parse error: invalid state SearchingField");
    assert!(matches!(status, ParseStatus::SearchingField));

    let mut status = ParseStatus::SearchingTable;
    assert_eq!(status.start_field().unwrap_err().message, "search field on state SearchingTable");
    assert_eq!(status.append_text("x").unwrap_err().message, "append text on state SearchingTable");
    assert_eq!(status.append_new_line().unwrap_err().message, "append text on state SearchingTable");
    assert_eq!(status.start_col().unwrap_err().message, "start col on status SearchingTable");
    assert_eq!(status.end_col().unwrap_err().message, "end col on status SearchingTable");
    assert_eq!(status.end_field().unwrap_err().message, "end field on status SearchingTable");
    assert_eq!(status.end_table().unwrap_err().message, "finish table on status SearchingTable");
    assert!(matches!(status, ParseStatus::SearchingTable));

    let mut status = ParseStatus::Col2("k".to_string(), "v".to_string());
    assert_eq!(status.end_field().unwrap_err().message, "end field on status Col2");
    assert!(matches!(&status, ParseStatus::Col2(k, v) if k == "k" && v == "v"));
    assert_eq!(status.start_col().unwrap_err().message, "start col on status Col2");
    assert_eq!(status.name(), "Col2");

    let mut status = ParseStatus::Finished;
    assert_eq!(status.start_table().unwrap_err().message, "invalid state Finished");
}

#[test]
fn a_break_before_any_text_adds_nothing() {
    let mut status = ParseStatus::Col1(String::new());
    assert!(status.append_new_line().is_ok());
    assert!(matches!(&status, ParseStatus::Col1(k) if k.is_empty()));
    assert!(status.append_text("a").is_ok());
    assert!(status.append_new_line().is_ok());
    assert!(matches!(&status, ParseStatus::Col1(k) if k == "a "));
    let mut status = ParseStatus::Col2("k".to_string(), String::new());
    assert!(status.append_new_line().is_ok());
    assert!(status.append_text("b").is_ok());
    assert!(status.append_new_line().is_ok());
    assert!(matches!(&status, ParseStatus::Col2(k, v) if k == "k" && v == "b "));
}
