use catalog_records::data::field::Field;
use catalog_records::data::index::Index;
use catalog_records::data::page::Page;
use catalog_records::data::range::Range;
use catalog_records::data::{Placed, Row, Slot};
use catalog_records::extract::{asks_to_keep_space, find_element, Element, Extractor, MarkupEvent, Step};

fn open(name: &str) -> MarkupEvent {
    MarkupEvent::ElementOpen { name: name.to_string(), attributes: vec![] }
}

fn close(name: &str) -> MarkupEvent {
    MarkupEvent::ElementClose { name: name.to_string() }
}

fn text(t: &str) -> MarkupEvent {
    MarkupEvent::Text(t.to_string())
}

fn row_events(key: &str, value: &str) -> Vec<MarkupEvent> {
    vec![
        open("tr"),
        open("tc"),
        open("p"),
        open("r"),
        open("t"),
        text(key),
        close("t"),
        close("r"),
        close("p"),
        close("tc"),
        open("tc"),
        open("p"),
        text(value),
        close("p"),
        close("tc"),
        close("tr"),
    ]
}

fn feed_all(extractor: &mut Extractor, events: &[MarkupEvent]) -> Vec<Step> {
    let mut steps = Vec::new();
    for e in events.iter() {
        let pulled = extractor.feed(e);
        match pulled.step {
            Step::Continue => {}
            step => steps.push(step),
        }
    }
    steps
}

#[test]
fn a_table_gives_a_record() {
    let mut extractor = Extractor::new();
    let mut events = vec![open("document"), open("tbl")];
    events.extend(row_events("Ano da Revista:", "1903"));
    events.extend(row_events("Página:", "p.138"));
    events.extend(row_events("Título completo do manuscrito:", "  Revista do IAGP "));
    events.push(close("tbl"));
    let steps = feed_all(&mut extractor, &events);
    assert_eq!(steps.len(), 1);
    match &steps[0] {
        Step::Record(row) => {
            assert_eq!(row.year, Some(Field::Present(Range::single(1903))));
            assert_eq!(row.page, Some(Field::Present(Page::from(Range::single(138)))));
            assert_eq!(row.title, Some(Field::Present("Revista do IAGP".to_string())));
            assert_eq!(row.ata, None);
            assert_eq!(row.kind, None);
        }
        other => panic!("expected a record, got {:?}", other),
    }
    assert!(!extractor.is_exhausted());
    let pulled = extractor.feed(&MarkupEvent::EndOfStream);
    assert!(matches!(pulled.step, Step::Finished));
    assert!(extractor.is_exhausted());
}

#[test]
fn a_second_value_for_a_slot_starts_the_next_record() {
    let mut extractor = Extractor::new();
    let mut events = vec![open("tbl")];
    events.extend(row_events("Ano", "1903"));
    events.extend(row_events("Página", "12"));
    events.extend(row_events("Ano", "1904"));
    events.extend(row_events("Página", "15"));
    events.push(close("tbl"));
    let steps = feed_all(&mut extractor, &events);
    assert_eq!(steps.len(), 2);
    match (&steps[0], &steps[1]) {
        (Step::Record(first), Step::Record(second)) => {
            assert_eq!(first.year, Some(Field::Present(Range::single(1903))));
            assert_eq!(first.page, Some(Field::Present(Page::from(Range::single(12)))));
            assert_eq!(second.year, Some(Field::Present(Range::single(1904))));
            assert_eq!(second.page, Some(Field::Present(Page::from(Range::single(15)))));
        }
        other => panic!("expected two records, got {:?}", other),
    }
}

#[test]
fn a_row_without_second_cell_is_reported_and_kept() {
    let mut extractor = Extractor::new();
    let events = vec![open("tbl"), open("tr"), open("tc"), text("Página"), close("tc")];
    assert!(feed_all(&mut extractor, &events).is_empty());
    let pulled = extractor.feed(&close("tr"));
    assert!(matches!(pulled.step, Step::Continue));
    assert_eq!(pulled.missing_value, Some("Página".to_string()));
    assert_eq!(pulled.unhandled, None);
    let pulled = extractor.feed(&close("tbl"));
    match pulled.step {
        Step::Record(row) => assert_eq!(row.page, Some(Field::Absent)),
        other => panic!("expected a record, got {:?}", other),
    }
}

#[test]
fn a_stream_that_ends_inside_a_row_gives_a_last_record() {
    let mut extractor = Extractor::new();
    let mut events = vec![open("tbl")];
    events.extend(row_events("Ano", "1903"));
    events.extend(vec![open("tr"), open("tc"), text("Página"), close("tc"), open("tc"), text("p.1")]);
    assert!(feed_all(&mut extractor, &events).is_empty());
    let pulled = extractor.feed(&MarkupEvent::EndOfStream);
    match pulled.step {
        Step::Record(row) => {
            assert_eq!(row.year, Some(Field::Present(Range::single(1903))));
            assert_eq!(row.page, Some(Field::Present(Page::from(Range::single(1)))));
        }
        other => panic!("expected a record, got {:?}", other),
    }
    assert!(extractor.is_exhausted());
}

#[test]
fn a_last_pair_that_meets_a_filled_slot_gives_two_records() {
    let mut extractor = Extractor::new();
    let mut events = vec![open("tbl")];
    events.extend(row_events("Ano", "1903"));
    events.extend(vec![open("tr"), open("tc"), text("Ano"), close("tc"), open("tc"), text("1904")]);
    assert!(feed_all(&mut extractor, &events).is_empty());
    let pulled = extractor.feed(&MarkupEvent::EndOfStream);
    match pulled.step {
        Step::Record(row) => assert_eq!(row.year, Some(Field::Present(Range::single(1903)))),
        other => panic!("expected a record, got {:?}", other),
    }
    assert!(!extractor.is_exhausted());
    let pulled = extractor.feed(&MarkupEvent::EndOfStream);
    match pulled.step {
        Step::Record(row) => assert_eq!(row.year, Some(Field::Present(Range::single(1904)))),
        other => panic!("expected a record, got {:?}", other),
    }
    assert!(extractor.is_exhausted());
}

#[test]
fn nothing_comes_after_the_end() {
    let mut extractor = Extractor::new();
    let mut events = vec![open("tbl")];
    events.extend(row_events("Ano", "1903"));
    events.push(close("tbl"));
    events.push(MarkupEvent::EndOfStream);
    let steps = feed_all(&mut extractor, &events);
    assert_eq!(steps.len(), 2);
    assert!(matches!(steps[0], Step::Record(_)));
    assert!(matches!(steps[1], Step::Finished));
    assert!(extractor.is_exhausted());
    for e in events.iter() {
        let pulled = extractor.feed(e);
        assert!(matches!(pulled.step, Step::Finished));
        assert_eq!(pulled.missing_value, None);
        assert_eq!(pulled.unhandled, None);
        assert!(extractor.is_exhausted());
    }
}

#[test]
fn text_outside_a_cell_is_a_paragraph() {
    let mut extractor = Extractor::new();
    let pulled = extractor.feed(&text("Revistas publicadas em 1903"));
    assert!(matches!(pulled.step, Step::Paragraph(ref p) if p == "Revistas publicadas em 1903"));
    let keep = MarkupEvent::ElementOpen {
        name: "t".to_string(),
        attributes: vec![("space".to_string(), "preserve".to_string())],
    };
    let pulled = extractor.feed(&keep);
    assert!(matches!(pulled.step, Step::Paragraph(ref p) if p == " "));
    let pulled = extractor.feed(&open("t"));
    assert!(matches!(pulled.step, Step::Continue));
    let pulled = extractor.feed(&open("p"));
    assert!(matches!(pulled.step, Step::Continue));
}

#[test]
fn kept_space_is_added_inside_a_cell() {
    let mut extractor = Extractor::new();
    let keep = MarkupEvent::ElementOpen {
        name: "t".to_string(),
        attributes: vec![("space".to_string(), "preserve".to_string())],
    };
    let events = vec![
        open("tbl"),
        open("tr"),
        open("tc"),
        text("Página"),
        close("tc"),
        open("tc"),
        text("12"),
        keep,
        text("e 13"),
        close("tc"),
        close("tr"),
        close("tbl"),
    ];
    let steps = feed_all(&mut extractor, &events);
    match &steps[0] {
        Step::Record(row) => {
            assert_eq!(row.page, Some(Field::Present(Page::from(Range::new(12, 13).unwrap()))))
        }
        other => panic!("expected a record, got {:?}", other),
    }
}

#[test]
fn the_first_space_attribute_decides() {
    let pair = |n: &str, v: &str| (n.to_string(), v.to_string());
    assert!(!asks_to_keep_space(&vec![]));
    assert!(asks_to_keep_space(&vec![pair("space", "preserve")]));
    assert!(!asks_to_keep_space(&vec![pair("space", "default")]));
    assert!(asks_to_keep_space(&vec![pair("lang", "pt"), pair("space", "preserve")]));
    assert!(!asks_to_keep_space(&vec![pair("space", "default"), pair("space", "preserve")]));
    assert!(!asks_to_keep_space(&vec![pair("lang", "preserve")]));
}

#[test]
fn elements_by_their_names() {
    assert_eq!(find_element("tbl"), Element::Table);
    assert_eq!(find_element("tr"), Element::Row);
    assert_eq!(find_element("tc"), Element::Cell);
    assert_eq!(find_element("p"), Element::Paragraph);
    assert_eq!(find_element("t"), Element::TextRun);
    assert_eq!(find_element("body"), Element::Other);
    assert_eq!(find_element(""), Element::Other);
}

#[test]
fn a_structural_error_ends_the_extraction() {
    let mut extractor = Extractor::new();
    let pulled = extractor.feed(&open("tr"));
    match pulled.step {
        Step::Failed(e) => assert_eq!(e.message, "search field on state SearchingTable"),
        other => panic!("expected an error, got {:?}", other),
    }
    assert!(extractor.is_exhausted());
    let pulled = extractor.feed(&open("tbl"));
    assert!(matches!(pulled.step, Step::Finished));

    let mut extractor = Extractor::new();
    extractor.feed(&open("tbl"));
    let pulled = extractor.feed(&close("tr"));
    match pulled.step {
        Step::Failed(e) => assert_eq!(e.message, "end field on status SearchingField"),
        other => panic!("expected an error, got {:?}", other),
    }
    let mut extractor = Extractor::new();
    let pulled = extractor.feed(&close("tbl"));
    match pulled.step {
        Step::Failed(e) => assert_eq!(e.message, "finish table on status SearchingTable"),
        other => panic!("expected an error, got {:?}", other),
    }
    let mut extractor = Extractor::new();
    let pulled = extractor.feed(&close("tc"));
    match pulled.step {
        Step::Failed(e) => assert_eq!(e.message, "end col on status SearchingTable"),
        other => panic!("expected an error, got {:?}", other),
    }
    let mut extractor = Extractor::new();
    let pulled = extractor.feed(&open("tc"));
    match pulled.step {
        Step::Failed(e) => assert_eq!(e.message, "start col on status SearchingTable"),
        other => panic!("expected an error, got {:?}", other),
    }
    let mut extractor = Extractor::new();
    extractor.feed(&open("tbl"));
    let pulled = extractor.feed(&open("tbl"));
    match pulled.step {
        Step::Failed(e) => assert_eq!(e.message, "invalid state SearchingField"),
        other => panic!("expected an error, got {:?}", other),
    }
}

#[test]
fn giving_up_ends_the_extraction() {
    let mut extractor = Extractor::new();
    let mut events = vec![open("tbl")];
    events.extend(row_events("Ano", "1903"));
    feed_all(&mut extractor, &events);
    extractor.abort();
    assert!(extractor.is_exhausted());
    assert!(matches!(extractor.feed(&close("tbl")).step, Step::Finished));
}

#[test]
fn an_unknown_key_is_reported_and_dropped() {
    let mut extractor = Extractor::new();
    let mut events = vec![open("tbl")];
    events.extend(row_events("Ano", "1903"));
    feed_all(&mut extractor, &events);
    let mut last = None;
    for e in row_events(" Observação ", " nada ").iter() {
        last = Some(extractor.feed(e));
    }
    let pulled = last.unwrap();
    assert!(matches!(pulled.step, Step::Continue));
    assert_eq!(pulled.unhandled, Some(("observação".to_string(), "nada".to_string())));
    let mut last = None;
    for e in row_events(" ", "").iter() {
        last = Some(extractor.feed(e));
    }
    let pulled = last.unwrap();
    assert!(matches!(pulled.step, Step::Continue));
    assert_eq!(pulled.unhandled, None);
    match extractor.feed(&close("tbl")).step {
        Step::Record(row) => {
            let mut expected = Row::new();
            assert_eq!(expected.set_field(("Ano".to_string(), "1903".to_string())), Ok(()));
            assert_eq!(row, expected);
        }
        other => panic!("expected a record, got {:?}", other),
    }
}

#[test]
fn an_empty_table_gives_an_empty_record() {
    let mut extractor = Extractor::new();
    let steps = feed_all(&mut extractor, &[open("tbl"), close("tbl")]);
    assert_eq!(steps.len(), 1);
    assert!(matches!(&steps[0], Step::Record(row) if row.is_empty()));
}

#[test]
fn placing_says_what_became_of_the_pair() {
    let mut row = Row::new();
    let placed = row.place((" ANO da revista ".to_string(), " 1903 ".to_string()));
    assert_eq!(
        placed,
        Placed::Stored {
            slot: Slot::Year,
            key: "ano da revista".to_string(),
            value: "1903".to_string()
        }
    );
    let placed = row.place(("Ano".to_string(), "1904".to_string()));
    assert_eq!(
        placed,
        Placed::Conflict { slot: Slot::Year, key: "ano".to_string(), value: "1904".to_string() }
    );
    assert_eq!(row.year, Some(Field::Present(Range::single(1903))));
    let placed = row.place(("Cor".to_string(), "azul".to_string()));
    assert_eq!(placed, Placed::Unhandled { key: "cor".to_string(), value: "azul".to_string() });
    assert_eq!(Row::seeded(Slot::Year, "1904").year, Some(Field::Present(Range::single(1904))));
}

#[test]
fn names_are_entered_in_the_index() {
    assert_eq!(Index::new("alberto Maranhão").parts(), vec!["alberto", "Maranhão"]);
    assert_eq!(Index::new("Natal").parts(), vec!["Natal"]);
    assert_eq!(Index::new("A  B c").parts(), vec!["A", " B c"]);
    assert_eq!(Index::new(" A").parts(), vec!["", "A"]);
    assert_eq!(Index::new("A ").parts(), vec!["A", ""]);
    assert_eq!(Index::new("").parts(), vec![""]);
    let parts = |p: &[&str]| -> Vec<String> { p.iter().map(|s| s.to_string()).collect() };
    assert_eq!(Index::entry(&parts(&["silva", "Ribeiro da"])), "\\index{Silva!Ribeiro da}");
    assert_eq!(Index::entry(&parts(&["IAGP"])), "\\index{IAGP}");
    assert_eq!(Index::entry(&parts(&["a", "b", "c"])), "\\index{A!b!c}");
    assert_eq!(Index::entry(&parts(&[])), "\\index{}");
    assert_eq!(Index::entry(&Index::new("alberto Maranhão").parts()), "\\index{Alberto!Maranhão}");
}
