//! The citation of the minutes of a session: the number of the session, its
//! kind, and its date.

use vstd::prelude::*;
use vstd::string::StringExecFns;
use crate::text::{Order, compare_text, flipped, decimal_text, decimal_up_to, is_word,
    parse_decimal, render_decimal, text_of, text_order};
use crate::pattern::{captures, first_match, group, group_at, groups_of};
use crate::data::field::FieldValue;

verus! {

/// The pattern of a citation: the number of the session with an optional
/// ordinal mark, optionally the word for a session and the kind of the
/// session, then the date as day, month and year joined by `de`, the day
/// being optional.
pub const CITATION_PATTERN: &'static str =
    r"(\d+)[ºª°]?\s+(?:sessão\s+)?(?:([\pL\s]+)\s+)?de\s+(?:(\d+)\s+)?(?:de\s+)?(\w+)\s+de\s+(\d+)";

/// The kind of a session.
#[derive(Debug, PartialEq, Eq, Hash)]
pub enum Session {
    Ordinary,
    Extraordinary,
    Other(String),
}

/// The mathematical value of a `Session`.
pub enum SessionKind {
    Ordinary,
    Extraordinary,
    Other(Seq<char>),
}

impl View for Session {
    type V = SessionKind;

    open spec fn view(&self) -> SessionKind {
        match self {
            Session::Ordinary => SessionKind::Ordinary,
            Session::Extraordinary => SessionKind::Extraordinary,
            Session::Other(s) => SessionKind::Other(s@),
        }
    }
}

/// The kind that a word names.
pub open spec fn session_of(t: Seq<char>) -> SessionKind {
    if t == "extraordinária"@ {
        SessionKind::Extraordinary
    } else if t == "ordinária"@ {
        SessionKind::Ordinary
    } else {
        SessionKind::Other(t)
    }
}

/// The short text of a kind.
pub open spec fn session_text(k: SessionKind) -> Seq<char> {
    match k {
        SessionKind::Ordinary => "ord."@,
        SessionKind::Extraordinary => "ext."@,
        SessionKind::Other(s) => s,
    }
}

/// The order of two kinds: ordinary, then extraordinary, then the others by
/// their text.
pub open spec fn session_order(a: SessionKind, b: SessionKind) -> Order {
    match (a, b) {
        (SessionKind::Ordinary, SessionKind::Ordinary) => Order::Equal,
        (SessionKind::Ordinary, _) => Order::Less,
        (SessionKind::Extraordinary, SessionKind::Ordinary) => Order::Greater,
        (SessionKind::Extraordinary, SessionKind::Extraordinary) => Order::Equal,
        (SessionKind::Extraordinary, SessionKind::Other(_)) => Order::Less,
        (SessionKind::Other(x), SessionKind::Other(y)) => text_order(x, y),
        (SessionKind::Other(_), _) => Order::Greater,
    }
}

impl Session {
    /// The kind that a word names.
    pub fn parse(t: &Vec<char>) -> (r: Session)
        ensures
            r@ == session_of(t@),
    {
        if is_word(t, "extraordinária") {
            Session::Extraordinary
        } else if is_word(t, "ordinária") {
            Session::Ordinary
        } else {
            Session::Other(text_of(t))
        }
    }

    /// The short text of the kind.
    pub fn render(&self) -> (r: String)
        ensures
            r@ == session_text(self@),
    {
        match self {
            Session::Ordinary => "ord.".to_owned(),
            Session::Extraordinary => "ext.".to_owned(),
            Session::Other(s) => s.clone(),
        }
    }

    /// Compares two kinds.
    pub fn compare(&self, other: &Session) -> (r: Order)
        ensures
            r == session_order(self@, other@),
    {
        match (self, other) {
            (Session::Ordinary, Session::Ordinary) => Order::Equal,
            (Session::Ordinary, _) => Order::Less,
            (Session::Extraordinary, Session::Ordinary) => Order::Greater,
            (Session::Extraordinary, Session::Extraordinary) => Order::Equal,
            (Session::Extraordinary, Session::Other(_)) => Order::Less,
            (Session::Other(x), Session::Other(y)) => compare_text(x.as_str(), y.as_str()),
            (Session::Other(_), _) => Order::Greater,
        }
    }
}

/// Whether a year of the Gregorian calendar, counted on before its
/// introduction, is a leap year.
pub open spec fn is_leap_year(year: int) -> bool {
    year % 4 == 0 && (year % 100 != 0 || year % 400 == 0)
}

/// The number of days of a month.
pub open spec fn days_in_month(year: int, month: int) -> int {
    if month == 2 {
        if is_leap_year(year) {
            29
        } else {
            28
        }
    } else if month == 4 || month == 6 || month == 9 || month == 11 {
        30
    } else {
        31
    }
}

/// The first year that a calendar date can have.
pub const MIN_YEAR: i32 = -262143;

/// The last year that a calendar date can have.
pub const MAX_YEAR: i32 = 262142;

/// Whether year, month and day make a calendar date.
pub open spec fn is_date(year: int, month: int, day: int) -> bool {
    &&& MIN_YEAR <= year <= MAX_YEAR
    &&& 1 <= month <= 12
    &&& 1 <= day <= days_in_month(year, month)
}

/// Asks `chrono::NaiveDate::from_ymd_opt` whether year, month and day make a
/// date. The contract claims that it makes one exactly for the days of the
/// Gregorian calendar, counted on before its introduction, in the years that
/// `chrono` can hold.
#[verifier::external_body]
fn makes_date(year: i32, month: u32, day: u32) -> (r: bool)
    ensures
        r == is_date(year as int, month as int, day as int),
{
    chrono::NaiveDate::from_ymd_opt(year, month, day).is_some()
}

/// A date known to the month or to the day.
#[derive(Clone, Copy, Debug, PartialEq, Eq, Hash)]
pub struct HistoricalDate {
    year: i32,
    month: u32,
    day: Option<u32>,
}

/// The mathematical value of a `HistoricalDate`.
pub struct Day {
    pub year: int,
    pub month: int,
    pub day: Option<int>,
}

/// Whether a value is a date: a month of a year, or a day of the calendar.
pub open spec fn is_day(d: Day) -> bool {
    match d.day {
        Some(day) => is_date(d.year, d.month, day),
        None => is_date(d.year, d.month, 1),
    }
}

/// The order of two dates in time. A date known to the month counts as the
/// first day of the month, and comes before every date of that month that is
/// known to the day.
pub open spec fn day_order(a: Day, b: Day) -> Order {
    let x = match a.day {
        Some(d) => d,
        None => 0,
    };
    let y = match b.day {
        Some(d) => d,
        None => 0,
    };
    if a.year < b.year {
        Order::Less
    } else if a.year > b.year {
        Order::Greater
    } else if a.month < b.month {
        Order::Less
    } else if a.month > b.month {
        Order::Greater
    } else if x < y {
        Order::Less
    } else if x > y {
        Order::Greater
    } else {
        Order::Equal
    }
}

/// The short name of a month.
pub open spec fn month_text(month: int) -> Seq<char> {
    if month == 1 {
        "jan"@
    } else if month == 2 {
        "fev"@
    } else if month == 3 {
        "mar"@
    } else if month == 4 {
        "abr"@
    } else if month == 5 {
        "mai"@
    } else if month == 6 {
        "jun"@
    } else if month == 7 {
        "jul"@
    } else if month == 8 {
        "ago"@
    } else if month == 9 {
        "set"@
    } else if month == 10 {
        "out"@
    } else if month == 11 {
        "nov"@
    } else {
        "dez"@
    }
}

/// The numeral of a whole number, with a minus sign before a negative one.
pub open spec fn int_text(n: int) -> Seq<char> {
    if n < 0 {
        seq!['-'] + decimal_text((-n) as nat)
    } else {
        decimal_text(n as nat)
    }
}

/// The text of a date: the day, where it is known, the short name of the
/// month with a full stop, and the year.
pub open spec fn day_text(d: Day) -> Seq<char> {
    match d.day {
        Some(day) => int_text(day) + " "@ + month_text(d.month) + ". "@ + int_text(d.year),
        None => month_text(d.month) + ". "@ + int_text(d.year),
    }
}

/// The month that a name names, written with a small or a capital first
/// letter.
pub open spec fn month_of(t: Seq<char>) -> Option<int> {
    if t == "janeiro"@ || t == "Janeiro"@ {
        Some(1)
    } else if t == "fevereiro"@ || t == "Fevereiro"@ {
        Some(2)
    } else if t == "março"@ || t == "Março"@ {
        Some(3)
    } else if t == "abril"@ || t == "Abril"@ {
        Some(4)
    } else if t == "maio"@ || t == "Maio"@ {
        Some(5)
    } else if t == "junho"@ || t == "Junho"@ {
        Some(6)
    } else if t == "julho"@ || t == "Julho"@ {
        Some(7)
    } else if t == "agosto"@ || t == "Agosto"@ {
        Some(8)
    } else if t == "setembro"@ || t == "Setembro"@ {
        Some(9)
    } else if t == "outubro"@ || t == "Outubro"@ {
        Some(10)
    } else if t == "novembro"@ || t == "Novembro"@ {
        Some(11)
    } else if t == "dezembro"@ || t == "Dezembro"@ {
        Some(12)
    } else {
        None
    }
}

/// Finds the month that a name names.
pub fn parse_month(t: &Vec<char>) -> (r: Option<u32>)
    ensures
        match r {
            Some(m) => month_of(t@) == Some(m as int) && 1 <= m <= 12,
            None => month_of(t@) is None,
        },
{
    if is_word(t, "janeiro") || is_word(t, "Janeiro") {
        Some(1)
    } else if is_word(t, "fevereiro") || is_word(t, "Fevereiro") {
        Some(2)
    } else if is_word(t, "março") || is_word(t, "Março") {
        Some(3)
    } else if is_word(t, "abril") || is_word(t, "Abril") {
        Some(4)
    } else if is_word(t, "maio") || is_word(t, "Maio") {
        Some(5)
    } else if is_word(t, "junho") || is_word(t, "Junho") {
        Some(6)
    } else if is_word(t, "julho") || is_word(t, "Julho") {
        Some(7)
    } else if is_word(t, "agosto") || is_word(t, "Agosto") {
        Some(8)
    } else if is_word(t, "setembro") || is_word(t, "Setembro") {
        Some(9)
    } else if is_word(t, "outubro") || is_word(t, "Outubro") {
        Some(10)
    } else if is_word(t, "novembro") || is_word(t, "Novembro") {
        Some(11)
    } else if is_word(t, "dezembro") || is_word(t, "Dezembro") {
        Some(12)
    } else {
        None
    }
}

/// The short name of a month.
pub fn month(m: u32) -> (r: &'static str)
    requires
        1 <= m <= 12,
    ensures
        r@ == month_text(m as int),
{
    if m == 1 {
        "jan"
    } else if m == 2 {
        "fev"
    } else if m == 3 {
        "mar"
    } else if m == 4 {
        "abr"
    } else if m == 5 {
        "mai"
    } else if m == 6 {
        "jun"
    } else if m == 7 {
        "jul"
    } else if m == 8 {
        "ago"
    } else if m == 9 {
        "set"
    } else if m == 10 {
        "out"
    } else if m == 11 {
        "nov"
    } else {
        "dez"
    }
}

/// Writes the numeral of a whole number.
pub fn render_int(n: i32) -> (r: String)
    ensures
        r@ == int_text(n as int),
{
    if n < 0 {
        let magnitude: u32 = (-(n as i64)) as u32;
        let mut v: Vec<char> = Vec::new();
        v.push('-');
        let mut digits = render_decimal(magnitude);
        v.append(&mut digits);
        assert(v@ == seq!['-'] + decimal_text((-n) as nat));
        text_of(&v)
    } else {
        let digits = render_decimal(n as u32);
        text_of(&digits)
    }
}

impl View for HistoricalDate {
    type V = Day;

    closed spec fn view(&self) -> Day {
        Day {
            year: self.year as int,
            month: self.month as int,
            day: match self.day {
                Some(d) => Some(d as int),
                None => None,
            },
        }
    }
}

impl HistoricalDate {
    #[verifier::type_invariant]
    spec fn valid(self) -> bool {
        is_day(self@)
    }

    /// The date of a month of a year, where there is such a month.
    pub fn month_only(year: i32, month: u32) -> (r: Option<HistoricalDate>)
        ensures
            match r {
                Some(d) => is_date(year as int, month as int, 1) && d@ == (Day {
                    year: year as int,
                    month: month as int,
                    day: None,
                }),
                None => !is_date(year as int, month as int, 1),
            },
    {
        if makes_date(year, month, 1) {
            Some(HistoricalDate { year, month, day: None })
        } else {
            None
        }
    }

    /// The date of a day, where the calendar has such a day.
    pub fn day(year: i32, month: u32, day: u32) -> (r: Option<HistoricalDate>)
        ensures
            match r {
                Some(d) => is_date(year as int, month as int, day as int) && d@ == (Day {
                    year: year as int,
                    month: month as int,
                    day: Some(day as int),
                }),
                None => !is_date(year as int, month as int, day as int),
            },
    {
        if makes_date(year, month, day) {
            Some(HistoricalDate { year, month, day: Some(day) })
        } else {
            None
        }
    }

    /// The date of a day, or of a month where no day is given.
    pub fn from_ymd_opt(year: i32, month: u32, day: Option<u32>) -> (r: Option<HistoricalDate>)
        ensures
            match r {
                Some(d) => Some(d@) == day_of(year as int, month as int, whole(day)),
                None => day_of(year as int, month as int, whole(day)) is None,
            },
    {
        match day {
            Some(d) => HistoricalDate::day(year, month, d),
            None => HistoricalDate::month_only(year, month),
        }
    }

    /// The year of the date.
    pub fn year(&self) -> (r: i32)
        ensures
            r == self@.year,
    {
        self.year
    }

    /// The month of the date, from 1 to 12.
    pub fn month(&self) -> (r: u32)
        ensures
            r == self@.month,
            1 <= r <= 12,
    {
        proof {
            use_type_invariant(self);
        }
        self.month
    }

    /// The day of the month, where it is known.
    pub fn day_of_month(&self) -> (r: Option<u32>)
        ensures
            whole(r) == self@.day,
    {
        self.day
    }

    /// Writes the date.
    pub fn render(&self) -> (r: String)
        ensures
            r@ == day_text(self@),
    {
        proof {
            use_type_invariant(self);
        }
        let mut r = String::new();
        match self.day {
            Some(d) => {
                let digits = render_decimal(d);
                r.append(text_of(&digits).as_str());
                r.append(" ");
            },
            None => {},
        }
        r.append(month(self.month));
        r.append(". ");
        r.append(render_int(self.year).as_str());
        r
    }

    /// Compares two dates in time.
    pub fn compare(&self, other: &HistoricalDate) -> (r: Order)
        ensures
            r == day_order(self@, other@),
    {
        let x: u32 = match self.day {
            Some(d) => d,
            None => 0,
        };
        let y: u32 = match other.day {
            Some(d) => d,
            None => 0,
        };
        proof {
            use_type_invariant(self);
            use_type_invariant(other);
        }
        if self.year < other.year {
            Order::Less
        } else if self.year > other.year {
            Order::Greater
        } else if self.month < other.month {
            Order::Less
        } else if self.month > other.month {
            Order::Greater
        } else if x < y {
            Order::Less
        } else if x > y {
            Order::Greater
        } else {
            Order::Equal
        }
    }
}

/// An optional number as an optional whole number.
pub open spec fn whole(n: Option<u32>) -> Option<int> {
    match n {
        Some(d) => Some(d as int),
        None => None,
    }
}

/// The date of a day, or of a month where no day is given; none where the
/// calendar has no such day or month.
pub open spec fn day_of(year: int, month: int, day: Option<int>) -> Option<Day> {
    let d = Day { year, month, day };
    if is_day(d) {
        Some(d)
    } else {
        None
    }
}

/// The citation of the minutes of a session.
#[derive(Debug, PartialEq, Eq, Hash)]
pub struct Ata {
    date: HistoricalDate,
    number: u16,
    session: Session,
}

/// The mathematical value of an `Ata`.
pub struct Citation {
    pub date: Day,
    pub number: int,
    pub session: SessionKind,
}

impl View for Ata {
    type V = Citation;

    closed spec fn view(&self) -> Citation {
        Citation { date: self.date@, number: self.number as int, session: self.session@ }
    }
}

/// An optional numeral as an optional whole number up to `max`.
pub open spec fn numeral(t: Option<Seq<char>>, max: nat) -> Option<int> {
    match t {
        Some(s) => match decimal_up_to(s, max) {
            Some(n) => Some(n as int),
            None => None,
        },
        None => None,
    }
}

/// The citation that the groups of a match give. The number of the session,
/// the month and the year must be there and be read; the kind is ordinary
/// where none is given; a day that is missing, or cannot be read, leaves the
/// date known to the month. There is no citation where the date is none of
/// the calendar.
pub open spec fn citation_of_groups(groups: Seq<Option<Seq<char>>>) -> Option<Citation> {
    let number = numeral(group_at(groups, 1), u16::MAX as nat);
    let session = match group_at(groups, 2) {
        Some(t) => session_of(t),
        None => SessionKind::Ordinary,
    };
    let day = numeral(group_at(groups, 3), u32::MAX as nat);
    let month = match group_at(groups, 4) {
        Some(t) => month_of(t),
        None => None,
    };
    let year = numeral(group_at(groups, 5), i32::MAX as nat);
    if number is Some && month is Some && year is Some {
        match day_of(year->Some_0, month->Some_0, day) {
            Some(date) => Some(Citation { date, number: number->Some_0, session }),
            None => None,
        }
    } else {
        None
    }
}

/// The citation that a text writes: that of the first match of the pattern.
pub open spec fn citation_of_text(s: Seq<char>) -> Option<Citation> {
    match first_match(CITATION_PATTERN@, s) {
        Some(groups) => citation_of_groups(groups),
        None => None,
    }
}

/// The text of a citation.
pub open spec fn citation_text(c: Citation) -> Seq<char> {
    int_text(c.number) + "ª sess. "@ + session_text(c.session) + " de "@ + day_text(c.date)
}

/// The order of two citations: by the date, then by the number of the
/// session, then by its kind.
pub open spec fn citation_order(a: Citation, b: Citation) -> Order {
    match day_order(a.date, b.date) {
        Order::Equal => if a.number < b.number {
            Order::Less
        } else if a.number > b.number {
            Order::Greater
        } else {
            session_order(a.session, b.session)
        },
        o => o,
    }
}

/// Reads the numeral in a group, up to `max`.
fn group_number(groups: &Vec<Option<String>>, i: usize, max: u32) -> (r: Option<u32>)
    ensures
        match r {
            Some(n) => numeral(group_at(groups_of(*groups), i as int), max as nat) == Some(
                n as int,
            ),
            None => numeral(group_at(groups_of(*groups), i as int), max as nat) is None,
        },
{
    match group(groups, i) {
        Some(t) => parse_decimal(&t, max),
        None => None,
    }
}

impl Ata {
    /// The citation that the groups of a match of the pattern give.
    pub fn from_groups(groups: &Vec<Option<String>>) -> (r: Option<Ata>)
        ensures
            match r {
                Some(ata) => citation_of_groups(groups_of(*groups)) == Some(ata@),
                None => citation_of_groups(groups_of(*groups)) is None,
            },
    {
        let number: u32 = match group_number(groups, 1, 0xFFFF) {
            Some(n) => n,
            None => {
                return None;
            },
        };
        let session = match group(groups, 2) {
            Some(t) => Session::parse(&t),
            None => Session::Ordinary,
        };
        let day = group_number(groups, 3, 0xFFFF_FFFF);
        let month: u32 = match group(groups, 4) {
            Some(t) => match parse_month(&t) {
                Some(m) => m,
                None => {
                    return None;
                },
            },
            None => {
                return None;
            },
        };
        let year: u32 = match group_number(groups, 5, 0x7FFF_FFFF) {
            Some(y) => y,
            None => {
                return None;
            },
        };
        match HistoricalDate::from_ymd_opt(year as i32, month, day) {
            Some(date) => Some(Ata { date, number: number as u16, session }),
            None => None,
        }
    }

    /// Reads a citation from a text. A text that writes none comes back as
    /// the error.
    pub fn parse(value: &str) -> (r: Result<Ata, String>)
        ensures
            match r {
                Ok(ata) => citation_of_text(value@) == Some(ata@),
                Err(e) => citation_of_text(value@) is None && e@ == value@,
            },
    {
        match captures(CITATION_PATTERN, value) {
            Some(groups) => match Ata::from_groups(&groups) {
                Some(ata) => Ok(ata),
                None => Err(value.to_owned()),
            },
            None => Err(value.to_owned()),
        }
    }

    /// The year of the session.
    pub fn year(&self) -> (r: i32)
        ensures
            r == self@.date.year,
    {
        self.date.year()
    }

    /// The number of the session.
    pub fn number(&self) -> (r: u16)
        ensures
            r == self@.number,
    {
        self.number
    }

    /// The kind of the session.
    pub fn session(&self) -> (r: &Session)
        ensures
            r@ == self@.session,
    {
        &self.session
    }

    /// The date of the session.
    pub fn date(&self) -> (r: HistoricalDate)
        ensures
            r@ == self@.date,
    {
        self.date
    }

    /// Writes the citation.
    pub fn render(&self) -> (r: String)
        ensures
            r@ == citation_text(self@),
    {
        let digits = render_decimal(self.number as u32);
        let mut r = text_of(&digits);
        r.append("ª sess. ");
        r.append(self.session.render().as_str());
        r.append(" de ");
        r.append(self.date.render().as_str());
        r
    }

    /// Compares two citations by the date, then by the number of the
    /// session, then by its kind.
    pub fn compare(&self, other: &Ata) -> (r: Order)
        ensures
            r == citation_order(self@, other@),
    {
        match self.date.compare(&other.date) {
            Order::Equal => if self.number < other.number {
                Order::Less
            } else if self.number > other.number {
                Order::Greater
            } else {
                self.session.compare(&other.session)
            },
            o => o,
        }
    }
}

impl FieldValue for Ata {
    open spec fn read(s: Seq<char>) -> Option<Citation> {
        citation_of_text(s)
    }

    open spec fn shown(v: Citation) -> Seq<char> {
        citation_text(v)
    }

    open spec fn order(a: Citation, b: Citation) -> Order {
        citation_order(a, b)
    }

    fn parse_value(s: &str) -> (r: Option<Ata>) {
        match Ata::parse(s) {
            Ok(ata) => Some(ata),
            Err(_) => None,
        }
    }

    fn render_value(&self) -> (r: String) {
        self.render()
    }

    fn compare_value(&self, other: &Ata) -> (r: Order) {
        self.compare(other)
    }
}

/// The order of dates is a total order: exchanging the sides flips the
/// result, only a date and itself are equal, and less follows from less and
/// less.
pub proof fn lemma_day_order_is_total(a: Day, b: Day, c: Day)
    requires
        is_day(a),
        is_day(b),
        is_day(c),
    ensures
        day_order(a, b) == flipped(day_order(b, a)),
        day_order(a, b) == Order::Equal <==> a == b,
        day_order(a, b) == Order::Less && day_order(b, c) == Order::Less ==> day_order(a, c)
            == Order::Less,
{
}

/// A date known to the month comes before every date of that month that is
/// known to the day, the first day included.
pub proof fn lemma_month_before_its_days(year: int, month: int, day: int)
    requires
        is_date(year, month, day),
    ensures
        day_order(Day { year, month, day: None }, Day { year, month, day: Some(day) })
            == Order::Less,
{
}

} // verus!
