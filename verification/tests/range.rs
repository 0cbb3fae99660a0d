use catalog_records::data::range::{
    format_range, mask_digits, match_tokens, number_tokens, parse_range, parse_roman, widen,
    Range,
};
use catalog_records::text::Order;

fn span(min: u32, max: u32) -> Result<Range, ()> {
    Ok(Range::new(min, max).unwrap())
}

fn tokens(t: &[&str]) -> Vec<String> {
    t.iter().map(|s| s.to_string()).collect()
}

#[test]
fn range_it_works() {
    let cases = [
        ("1 e 2", span(1, 2)),
        ("18", span(18, 18)),
        ("XVIII- XIX", span(18, 19)),
        ("16", span(16, 16)),
        ("XI-XII-XIII", span(11, 13)),
        ("7", span(7, 7)),
        ("18-19", span(18, 19)),
        ("IX", span(9, 9)),
        ("2", span(2, 2)),
        ("5", span(5, 5)),
        ("8", span(8, 8)),
        ("XIV", span(14, 14)),
        ("2", span(2, 2)),
        ("6", span(6, 6)),
        ("X", span(10, 10)),
        ("4", span(4, 4)),
        ("1", span(1, 1)),
        ("5", span(5, 5)),
        ("9", span(9, 9)),
        ("1234-3333", span(1234, 3333)),
        ("1234 - 3333", span(1234, 3333)),
        (" 1234 - 3333 ", span(1234, 3333)),
        (" 1234 ", span(1234, 1234)),
        (" 1234 -", span(1234, 1234)),
        (" 1234 - 3333 - ", span(1234, 3333)),
        ("327/328", span(327, 328)),
        ("241-2", span(241, 242)),
        ("241/52", span(241, 252)),
        ("MCMLXXXVIII-MCMLXXXIX", span(1988, 1989)),
    ];

    for (res, expec) in cases.iter().map(|(s, e)| (parse_range(s), e.clone())) {
        assert_eq!(res, expec);
    }
}

#[test]
fn short_number_stands_for_last_digits() {
    assert_eq!(Range::parse("241-2"), span(241, 242));
    assert_eq!(Range::parse("1234-3333"), span(1234, 3333));
    assert_eq!(Range::parse("XI-XII-XIII"), span(11, 13));
    assert_eq!(widen(241, 2), Some(242));
    assert_eq!(widen(241, 52), Some(252));
    assert_eq!(widen(1234, 3333), Some(3333));
    assert_eq!(widen(1234, 1234), Some(1234));
    assert_eq!(widen(120, 0), Some(120));
    assert_eq!(widen(4294967295, 999999999), None);
    assert_eq!(widen(4000000000, 1000000000), Some(1000000000));
}

#[test]
fn mask_has_one_zero_for_each_digit() {
    assert_eq!(mask_digits(0), 1);
    assert_eq!(mask_digits(2), 10);
    assert_eq!(mask_digits(52), 100);
    assert_eq!(mask_digits(241), 1000);
    assert_eq!(mask_digits(4294967295), 10000000000);
}

#[test]
fn roman_numerals() {
    assert_eq!(parse_roman("I"), Some(1));
    assert_eq!(parse_roman("IV"), Some(4));
    assert_eq!(parse_roman("IX"), Some(9));
    assert_eq!(parse_roman("XIV"), Some(14));
    assert_eq!(parse_roman("XIX"), Some(19));
    assert_eq!(parse_roman("MCMLXXXVIII"), Some(1988));
    assert_eq!(parse_roman("MDCLXVI"), Some(1666));
    assert_eq!(parse_roman(""), None);
    assert_eq!(parse_roman("IIIX"), Some(7));
    assert_eq!(parse_roman("IIIIIV"), None);
    assert_eq!(parse_roman("XA"), None);
    assert_eq!(parse_roman("12"), None);
}

#[test]
fn tokens_give_the_span() {
    assert_eq!(Range::from_tokens(&tokens(&["241", "2"])), span(241, 242));
    assert_eq!(Range::from_tokens(&tokens(&["XI", "XII", "XIII"])), span(11, 13));
    assert_eq!(Range::from_tokens(&tokens(&["7"])), span(7, 7));
    assert_eq!(Range::from_tokens(&tokens(&[])), Err(()));
    assert_eq!(Range::from_tokens(&tokens(&["7", "x"])), Err(()));
    assert_eq!(Range::from_tokens(&tokens(&[""])), Err(()));
    assert_eq!(Range::from_tokens(&tokens(&["99999999999"])), Err(()));
    assert_eq!(Range::from_tokens(&tokens(&["4294967295"])), span(4294967295, 4294967295));
    assert_eq!(
        Range::from_tokens(&tokens(&["4294967295", "999999999"])),
        Err(())
    );
}

#[test]
fn text_without_number_is_no_span() {
    assert_eq!(Range::parse(""), Err(()));
    assert_eq!(Range::parse("sem número"), Err(()));
    assert_eq!(Range::parse(" - "), Err(()));
}

#[test]
fn upper_end_below_lower_end_is_no_span() {
    assert_eq!(Range::parse("5-3"), Err(()));
    assert_eq!(Range::new(5, 3), None);
}

#[test]
fn span_is_written_and_read_back() {
    let cases = [(1, 2), (3, 17), (18, 19), (241, 242), (1234, 3333), (0, 4294967295), (9, 10)];
    for (a, b) in cases.iter() {
        let range = Range::new(*a, *b).unwrap();
        assert_eq!(Range::parse(&range.render()), Ok(range));
    }
    assert_eq!(Range::new(1, 2).unwrap().render(), "1–2");
    assert_eq!(Range::single(18).render(), "18");
    assert_eq!(Range::parse(&Range::single(18).render()), Ok(Range::single(18)));
    assert_eq!(format_range(1234, 3333), "1234–3333");
    assert_eq!(format_range(7, 7), "7");
}

#[test]
fn spans_are_ordered_by_lower_end_first() {
    let a = Range::new(1, 9).unwrap();
    let b = Range::new(2, 3).unwrap();
    let c = Range::new(2, 4).unwrap();
    assert_eq!(a.compare(&b), Order::Less);
    assert_eq!(b.compare(&c), Order::Less);
    assert_eq!(c.compare(&a), Order::Greater);
    assert_eq!(c.compare(&c), Order::Equal);
    assert_eq!(a.min(), 1);
    assert_eq!(a.max(), 9);
}

#[test]
fn the_ends_of_a_span_are_joined_by_one_en_dash() {
    assert_eq!(format_range(1, 2), "1\u{2013}2");
    assert_eq!(format_range(1, 2).chars().count(), 3);
    assert_eq!(Range::new(241, 252).unwrap().render(), "241\u{2013}252");
}

#[test]
fn the_number_pattern_gives_the_tokens() {
    assert_eq!(number_tokens("241-2"), Some(vec!["241".to_string(), "2".to_string()]));
    assert_eq!(number_tokens("XI\u{2013}XII e 3"), Some(tokens(&["XI", "XII", "3"])));
    assert_eq!(number_tokens("sem"), Some(vec![]));
    let found = vec![vec![Some("241".to_string())], vec![None], vec![], vec![Some("2".to_string()), None]];
    assert_eq!(match_tokens(&found), tokens(&["241", "", "", "2"]));
}
