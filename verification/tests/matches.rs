use catalog_records::data::ata::{Ata, HistoricalDate, Session};
use catalog_records::data::document_type::{fields_from_groups, fields_from_matches, DocumentType};
use catalog_records::data::field::Field;
use catalog_records::data::number_volume::NumberVolume;
use catalog_records::data::range::Range;
use catalog_records::data::{Placed, Row, Slot};
use catalog_records::pattern::group;

fn groups(g: &[Option<&str>]) -> Vec<Option<String>> {
    g.iter().map(|o| o.map(|s| s.to_string())).collect()
}

#[test]
fn groups_of_a_citation() {
    let ata = Ata::from_groups(&groups(&[
        Some("5º sessão extraordinária de 24 de janeiro de 1904"),
        Some("5"),
        Some("extraordinária"),
        Some("24"),
        Some("janeiro"),
        Some("1904"),
    ]))
    .unwrap();
    assert_eq!(ata.number(), 5);
    assert_eq!(*ata.session(), Session::Extraordinary);
    assert_eq!(ata.date(), HistoricalDate::day(1904, 1, 24).unwrap());

    let ata = Ata::from_groups(&groups(&[
        Some("145ª de Novembro de 1909"),
        Some("145"),
        None,
        None,
        Some("Novembro"),
        Some("1909"),
    ]))
    .unwrap();
    assert_eq!(*ata.session(), Session::Ordinary);
    assert_eq!(ata.date(), HistoricalDate::month_only(1909, 11).unwrap());
}

#[test]
fn groups_that_give_no_citation() {
    let whole = Some("x");
    assert_eq!(Ata::from_groups(&groups(&[])), None);
    assert_eq!(
        Ata::from_groups(&groups(&[whole, None, None, Some("1"), Some("maio"), Some("1904")])),
        None
    );
    assert_eq!(
        Ata::from_groups(&groups(&[whole, Some("65536"), None, Some("1"), Some("maio"), Some("1904")])),
        None
    );
    assert_eq!(
        Ata::from_groups(&groups(&[whole, Some("1"), None, Some("1"), Some("may"), Some("1904")])),
        None
    );
    assert_eq!(
        Ata::from_groups(&groups(&[whole, Some("1"), None, Some("1"), None, Some("1904")])),
        None
    );
    assert_eq!(
        Ata::from_groups(&groups(&[whole, Some("1"), None, Some("1"), Some("maio"), None])),
        None
    );
    assert_eq!(
        Ata::from_groups(&groups(&[whole, Some("1"), None, Some("1"), Some("maio"), Some("2147483648")])),
        None
    );
    assert_eq!(
        Ata::from_groups(&groups(&[whole, Some("1"), None, Some("1"), Some("maio"), Some("262143")])),
        None
    );
    assert_eq!(
        Ata::from_groups(&groups(&[whole, Some("1"), None, Some("32"), Some("maio"), Some("1904")])),
        None
    );
}

#[test]
fn a_day_that_cannot_be_read_leaves_the_month() {
    let ata = Ata::from_groups(&groups(&[
        Some("x"),
        Some("65535"),
        Some("solene"),
        Some("99999999999"),
        Some("Maio"),
        Some("1904"),
    ]))
    .unwrap();
    assert_eq!(ata.number(), 65535);
    assert_eq!(*ata.session(), Session::Other("solene".to_string()));
    assert_eq!(ata.date(), HistoricalDate::month_only(1904, 5).unwrap());
}

#[test]
fn whole_matches_are_the_tokens() {
    let found = vec![groups(&[Some("241")]), groups(&[Some("2")])];
    assert_eq!(Range::from_matches(&found), Ok(Range::new(241, 242).unwrap()));
    assert_eq!(Range::from_matches(&vec![]), Err(()));
    assert_eq!(Range::from_matches(&vec![groups(&[None])]), Err(()));
    assert_eq!(Range::from_matches(&vec![groups(&[])]), Err(()));
    assert_eq!(Range::from_matches(&vec![groups(&[Some("XIV"), Some("9")])]), Ok(Range::single(14)));
}

#[test]
fn first_groups_hold_number_and_volume() {
    let number = Some(groups(&[Some("N.1-2 "), Some("1-2 ")]));
    let volume = Some(groups(&[Some("V.18-19"), Some("18-19")]));
    let both = NumberVolume::from_matches(&number, &volume).unwrap();
    assert_eq!(both.number(), Some(Range::new(1, 2).unwrap()));
    assert_eq!(both.volume(), Some(Range::new(18, 19).unwrap()));
    let only = NumberVolume::from_matches(&None, &volume).unwrap();
    assert_eq!(only.number(), None);
    assert_eq!(only.volume(), Some(Range::new(18, 19).unwrap()));
    assert_eq!(NumberVolume::from_matches(&None, &None), Err(()));
    let empty = Some(groups(&[Some("N."), None]));
    assert_eq!(NumberVolume::from_matches(&empty, &None), Err(()));
    let unread = Some(groups(&[Some("N. e"), Some("e")]));
    assert_eq!(NumberVolume::from_matches(&unread, &None), Err(()));
}

#[test]
fn each_group_that_took_part_gives_a_field() {
    let g = groups(&[Some("periódico  (drama)"), Some("periódico  "), Some("drama"), None]);
    assert_eq!(
        fields_from_groups(&g),
        vec![
            Field::Present(DocumentType::Periodico),
            Field::Present(DocumentType::Other("drama".to_string()))
        ]
    );
    assert_eq!(fields_from_groups(&groups(&[Some("jornal")])), vec![]);
    assert_eq!(fields_from_groups(&groups(&[])), vec![]);
    let h = groups(&[Some("jornal?"), Some("jornal"), None, Some("?")]);
    assert_eq!(
        fields_from_matches(&vec![g, groups(&[Some(""), None, None, None]), h]),
        vec![
            Field::Present(DocumentType::Periodico),
            Field::Present(DocumentType::Other("drama".to_string())),
            Field::Present(DocumentType::Jornal),
            Field::Absent
        ]
    );
}

#[test]
fn a_group_by_its_number() {
    let g = groups(&[Some("ab"), None, Some("b")]);
    assert_eq!(group(&g, 0), Some(vec!['a', 'b']));
    assert_eq!(group(&g, 1), None);
    assert_eq!(group(&g, 2), Some(vec!['b']));
    assert_eq!(group(&g, 3), None);
}

#[test]
fn a_text_is_classified_as_it_is() {
    assert_eq!(Field::<Range>::classify("-"), Field::Absent);
    assert_eq!(Field::<Range>::classify(" - "), Field::NotStandard(" - ".to_string()));
    assert_eq!(Field::<Range>::classify(" 12 "), Field::Present(Range::single(12)));
    assert_eq!(Field::<String>::classify(" x "), Field::Present(" x ".to_string()));
    assert_eq!(Field::<String>::classify("x"), Field::Absent);
}

#[test]
fn a_pair_is_placed_as_it_is() {
    let mut row = Row::new();
    let placed = row.place_as_is("ano".to_string(), "1903".to_string());
    assert_eq!(
        placed,
        Placed::Stored { slot: Slot::Year, key: "ano".to_string(), value: "1903".to_string() }
    );
    assert_eq!(row.year, Some(Field::Present(Range::single(1903))));
    let placed = row.place_as_is("Ano".to_string(), "1904".to_string());
    assert_eq!(placed, Placed::Unhandled { key: "Ano".to_string(), value: "1904".to_string() });
    let placed = row.place_as_is("ano".to_string(), "1904".to_string());
    assert_eq!(
        placed,
        Placed::Conflict { slot: Slot::Year, key: "ano".to_string(), value: "1904".to_string() }
    );
    assert_eq!(row.year, Some(Field::Present(Range::single(1903))));
}
