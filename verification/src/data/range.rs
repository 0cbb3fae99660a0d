//! Spans of numbers, written in decimal or Roman numerals.

use vstd::prelude::*;
use crate::text::{Order, chars_of, flipped, decimal_up_to, decimal_text, lemma_decimal_round_trip, parse_decimal, render_decimal, text_of};
use crate::pattern::{all_matches, captures_iter, group, group_at, matches_of};
use crate::data::field::FieldValue;

verus! {

/// An inclusive span of numbers, from `min` to `max`.
#[derive(Clone, Copy, Debug, PartialEq, Eq, Hash)]
pub struct Range {
    min: u32,
    max: u32,
}

/// The mathematical value of a `Range`.
pub struct Span {
    pub min: nat,
    pub max: nat,
}

impl View for Range {
    type V = Span;

    closed spec fn view(&self) -> Span {
        Span { min: self.min as nat, max: self.max as nat }
    }
}

/// The pattern of one number in a text: a run of digits or a run of Roman
/// numeral letters.
pub const NUMBER_PATTERN: &'static str = r"(?:\d+|[MDCLXVI]+)";

/// The value of one Roman numeral letter.
pub open spec fn roman_digit(c: char) -> Option<int> {
    if c == 'I' {
        Some(1)
    } else if c == 'V' {
        Some(5)
    } else if c == 'X' {
        Some(10)
    } else if c == 'L' {
        Some(50)
    } else if c == 'C' {
        Some(100)
    } else if c == 'D' {
        Some(500)
    } else if c == 'M' {
        Some(1000)
    } else {
        None
    }
}

/// The sum and the greatest letter of a Roman numeral, read from its right
/// end: a letter is added where no letter to its right is greater, and
/// subtracted otherwise. `None` where a character is no Roman numeral letter.
pub open spec fn roman_scan(s: Seq<char>) -> Option<(int, int)>
    decreases s.len(),
{
    if s.len() == 0 {
        Some((0, 0))
    } else {
        match (roman_digit(s[0]), roman_scan(s.drop_first())) {
            (Some(d), Some((total, greatest))) => Some(
                (
                    if d >= greatest {
                        total + d
                    } else {
                        total - d
                    },
                    if greatest < d {
                        d
                    } else {
                        greatest
                    },
                ),
            ),
            _ => None,
        }
    }
}

/// The number that a Roman numeral writes, where its sum is positive and
/// fits in 32 bits.
pub open spec fn roman_value(s: Seq<char>) -> Option<nat> {
    match roman_scan(s) {
        Some((total, _)) => if 0 < total <= u32::MAX {
            Some(total as nat)
        } else {
            None
        },
        None => None,
    }
}

/// The number that one token writes: read as decimal where that is possible,
/// else as a Roman numeral.
pub open spec fn token_value(t: Seq<char>) -> Option<nat> {
    match decimal_up_to(t, u32::MAX as nat) {
        Some(n) => Some(n),
        None => roman_value(t),
    }
}

/// Ten to the number of decimal digits of `n`; 1 for zero.
pub open spec fn digit_mask(n: nat) -> nat
    decreases n,
{
    if n == 0 {
        1
    } else {
        10 * digit_mask(n / 10)
    }
}

/// The upper end after a further number: the number itself where it is not
/// below the upper end so far; else it stands for the last digits of the
/// upper end, which it replaces.
pub open spec fn widened(upper: nat, num: nat) -> nat {
    if num >= upper {
        num
    } else {
        (upper / digit_mask(num)) * digit_mask(num) + num
    }
}

/// The upper end of the span that a run of numbers gives; `None` where there
/// is no number or an upper end on the way does not fit in 32 bits.
pub open spec fn upper_end(values: Seq<nat>) -> Option<nat>
    decreases values.len(),
{
    if values.len() == 0 {
        None
    } else if values.len() == 1 {
        if values[0] <= u32::MAX {
            Some(values[0])
        } else {
            None
        }
    } else {
        match upper_end(values.drop_last()) {
            Some(upper) => if widened(upper, values.last()) <= u32::MAX {
                Some(widened(upper, values.last()))
            } else {
                None
            },
            None => None,
        }
    }
}

/// The numbers that the tokens write; `None` where one of them writes none.
pub open spec fn token_values(tokens: Seq<Seq<char>>) -> Option<Seq<nat>>
    decreases tokens.len(),
{
    if tokens.len() == 0 {
        Some(Seq::empty())
    } else {
        match (token_values(tokens.drop_last()), token_value(tokens.last())) {
            (Some(values), Some(n)) => Some(values.push(n)),
            _ => None,
        }
    }
}

/// The span that a run of tokens gives: the first number is its lower end,
/// the upper end is widened by each number in turn. There is none where
/// there is no token, where a token writes no number, where an upper end
/// does not fit in 32 bits, or where the upper end comes out below the
/// lower end.
pub open spec fn span_of_tokens(tokens: Seq<Seq<char>>) -> Option<Span> {
    match token_values(tokens) {
        Some(values) => match upper_end(values) {
            Some(upper) => if values[0] <= upper {
                Some(Span { min: values[0], max: upper })
            } else {
                None
            },
            None => None,
        },
        None => None,
    }
}

/// The texts of a run of tokens.
pub open spec fn texts_of(tokens: Vec<String>) -> Seq<Seq<char>> {
    tokens@.map_values(|t: String| t@)
}

/// The token of one match: the text of the whole match.
pub open spec fn token_of(groups: Seq<Option<Seq<char>>>) -> Seq<char> {
    match group_at(groups, 0) {
        Some(t) => t,
        None => Seq::empty(),
    }
}

/// The tokens of a run of matches: the whole of each match, in order.
pub open spec fn tokens_of_matches(m: Seq<Seq<Option<Seq<char>>>>) -> Seq<Seq<char>> {
    m.map_values(|g: Seq<Option<Seq<char>>>| token_of(g))
}

/// The tokens that the number pattern finds in a text.
pub open spec fn tokens_of_text(s: Seq<char>) -> Option<Seq<Seq<char>>> {
    match all_matches(NUMBER_PATTERN@, s) {
        Some(m) => Some(tokens_of_matches(m)),
        None => None,
    }
}

/// The span that an optional run of tokens gives.
pub open spec fn span_of_run(run: Option<Seq<Seq<char>>>) -> Option<Span> {
    match run {
        Some(tokens) => span_of_tokens(tokens),
        None => None,
    }
}

/// The span that the matches of the number pattern give.
pub open spec fn span_of_matches(found: Option<Seq<Seq<Option<Seq<char>>>>>) -> Option<Span> {
    match found {
        Some(m) => span_of_tokens(tokens_of_matches(m)),
        None => None,
    }
}

/// The span that a text writes: that of the numbers found in it.
pub open spec fn span_of_text(s: Seq<char>) -> Option<Span> {
    span_of_matches(all_matches(NUMBER_PATTERN@, s))
}

/// The dash that stands between the two ends of a span.
pub const EN_DASH: char = '\u{2013}';

/// The text of a span: one numeral where both ends are the same, else both
/// numerals with an en dash between them.
pub open spec fn span_text(s: Span) -> Seq<char> {
    if s.min == s.max {
        decimal_text(s.min)
    } else {
        decimal_text(s.min) + seq![EN_DASH] + decimal_text(s.max)
    }
}

/// The order of two spans: by the lower end, then by the upper end.
pub open spec fn span_order(a: Span, b: Span) -> Order {
    if a.min < b.min {
        Order::Less
    } else if a.min > b.min {
        Order::Greater
    } else if a.max < b.max {
        Order::Less
    } else if a.max > b.max {
        Order::Greater
    } else {
        Order::Equal
    }
}

/// The order of spans is a total order: exchanging the sides flips the
/// result, only a span and itself are equal, and less follows from less
/// and less.
pub proof fn lemma_span_order_is_total(a: Span, b: Span, c: Span)
    ensures
        span_order(a, b) == flipped(span_order(b, a)),
        span_order(a, b) == Order::Equal <==> a == b,
        span_order(a, b) == Order::Less && span_order(b, c) == Order::Less ==> span_order(a, c)
            == Order::Less,
{
}

/// A Roman numeral read up to some letter is a numeral too.
proof fn lemma_roman_suffix(s: Seq<char>, i: int)
    requires
        0 <= i <= s.len(),
        roman_scan(s) is Some,
    ensures
        roman_scan(s.skip(i)) is Some,
        i < s.len() ==> roman_digit(s[i]) is Some,
    decreases i,
{
    if i == 0 {
        assert(s.skip(0) == s);
    } else {
        lemma_roman_suffix(s, i - 1);
        assert(s.skip(i - 1).drop_first() == s.skip(i));
        assert(s.skip(i - 1)[0] == s[i - 1]);
    }
    if i < s.len() {
        assert(s.skip(i)[0] == s[i]);
    }
}

/// Reads a Roman numeral.
pub fn parse_roman(text: &str) -> (r: Option<u32>)
    ensures
        match r {
            Some(n) => roman_value(text@) == Some(n as nat),
            None => roman_value(text@) is None,
        },
{
    let s = chars_of(text);
    let mut total: i128 = 0;
    let mut greatest: i128 = 0;
    let mut i: usize = s.len();
    assert(s@.skip(s.len() as int) == Seq::<char>::empty());
    while i > 0
        invariant
            i <= s.len(),
            s@ == text@,
            roman_scan(s@.skip(i as int)) == Some((total as int, greatest as int)),
            -1000 * (s.len() - i) <= total <= 1000 * (s.len() - i),
            0 <= greatest <= 1000,
        decreases i,
    {
        i -= 1;
        let c: char = s[i];
        proof {
            assert(s@.skip(i as int).drop_first() == s@.skip(i + 1));
            assert(s@.skip(i as int)[0] == c);
            if roman_scan(s@) is Some {
                lemma_roman_suffix(s@, i as int);
            }
        }
        let d: i128 = if c == 'I' {
            1
        } else if c == 'V' {
            5
        } else if c == 'X' {
            10
        } else if c == 'L' {
            50
        } else if c == 'C' {
            100
        } else if c == 'D' {
            500
        } else if c == 'M' {
            1000
        } else {
            return None;
        };
        if d >= greatest {
            total = total + d;
        } else {
            total = total - d;
        }
        if greatest < d {
            greatest = d;
        }
    }
    assert(s@.skip(0) == s@);
    if total > 0 && total <= 0xFFFF_FFFF {
        Some(total as u32)
    } else {
        None
    }
}

/// Ten to the number of decimal digits of `n`.
pub fn mask_digits(n: u32) -> (mask: u64)
    ensures
        mask == digit_mask(n as nat),
        1 <= mask,
{
    let mut rest: u32 = n;
    let mut mask: u64 = 1;
    assert(1 * digit_mask(n as nat) == digit_mask(n as nat)) by (nonlinear_arith);
    while rest != 0
        invariant
            mask * digit_mask(rest as nat) == digit_mask(n as nat),
            1 <= mask,
            mask * rest <= 0xFFFF_FFFF,
        decreases rest,
    {
        proof {
            let m = mask as int;
            let r = rest as int;
            let q = r / 10;
            let dm = digit_mask((rest / 10) as nat) as int;
            assert(digit_mask(rest as nat) == 10 * dm);
            assert((m * 10) * dm == m * (10 * dm)) by (nonlinear_arith);
            assert((m * 10) * dm == digit_mask(n as nat));
            assert(m * 10 * q <= m * r) by (nonlinear_arith)
                requires
                    q * 10 <= r,
                    m >= 1,
            ;
            assert(m * 10 <= 0xFFFF_FFFF * 10) by (nonlinear_arith)
                requires
                    m * r <= 0xFFFF_FFFF,
                    r >= 1,
                    m >= 1,
            ;
        }
        rest = rest / 10;
        mask = mask * 10;
    }
    assert(rest == 0);
    assert(digit_mask(0) == 1);
    assert(mask * digit_mask(0) == mask) by (nonlinear_arith)
        requires
            digit_mask(0) == 1,
    ;
    assert(mask == digit_mask(n as nat));
    mask
}

/// The upper end after a further number, where it fits in 32 bits.
pub fn widen(upper: u32, num: u32) -> (r: Option<u32>)
    ensures
        match r {
            Some(w) => widened(upper as nat, num as nat) == w as nat,
            None => widened(upper as nat, num as nat) > u32::MAX,
        },
{
    if num >= upper {
        Some(num)
    } else {
        let mask: u64 = mask_digits(num);
        let high: u64 = (upper as u64) / mask;
        assert(high * mask <= upper) by (nonlinear_arith)
            requires
                high == (upper as int) / (mask as int),
                mask >= 1,
        ;
        let w: u64 = high * mask + (num as u64);
        if w <= 0xFFFF_FFFF {
            Some(w as u32)
        } else {
            None
        }
    }
}

impl Range {
    #[verifier::type_invariant]
    spec fn ordered(self) -> bool {
        self.min <= self.max
    }

    /// The span from `min` to `max`, where `min` is not above `max`.
    pub fn new(min: u32, max: u32) -> (r: Option<Range>)
        ensures
            match r {
                Some(range) => min <= max && range@ == (Span { min: min as nat, max: max as nat }),
                None => min > max,
            },
    {
        if min <= max {
            Some(Range { min, max })
        } else {
            None
        }
    }

    /// The span of a single number.
    pub fn single(n: u32) -> (r: Range)
        ensures
            r@ == (Span { min: n as nat, max: n as nat }),
    {
        Range { min: n, max: n }
    }

    /// The lower end, which is never above the upper end.
    pub fn min(&self) -> (r: u32)
        ensures
            r == self@.min,
            self@.min <= self@.max,
    {
        proof {
            use_type_invariant(self);
        }
        self.min
    }

    /// The upper end, which is never below the lower end.
    pub fn max(&self) -> (r: u32)
        ensures
            r == self@.max,
            self@.min <= self@.max,
    {
        proof {
            use_type_invariant(self);
        }
        self.max
    }

    /// The span that a run of tokens gives.
    pub fn from_tokens(tokens: &Vec<String>) -> (r: Result<Range, ()>)
        ensures
            match r {
                Ok(range) => span_of_tokens(texts_of(*tokens)) == Some(range@),
                Err(_) => span_of_tokens(texts_of(*tokens)) is None,
            },
    {
        let ghost toks = texts_of(*tokens);
        let mut lower: u32 = 0;
        let mut upper: u32 = 0;
        let mut i: usize = 0;
        let ghost mut values: Seq<nat> = Seq::empty();
        assert(toks.take(0) == Seq::<Seq<char>>::empty());
        while i < tokens.len()
            invariant
                i <= tokens.len(),
                toks == texts_of(*tokens),
                token_values(toks.take(i as int)) == Some(values),
                values.len() == i,
                i > 0 ==> upper_end(values) == Some(upper as nat) && values[0] == lower,
            decreases tokens.len() - i,
        {
            let token = tokens[i].as_str();
            proof {
                assert(toks.take(i + 1).drop_last() == toks.take(i as int));
                assert(toks.take(i + 1).last() == token@);
            }
            let digits = chars_of(token);
            let num: u32 = match parse_decimal(&digits, 0xFFFF_FFFF) {
                Some(n) => n,
                None => match parse_roman(token) {
                    Some(n) => n,
                    None => {
                        proof {
                            lemma_values_prefix(toks, i + 1);
                        }
                        return Err(());
                    },
                },
            };
            let ghost before = values;
            proof {
                values = values.push(num as nat);
                assert(values.drop_last() == before);
            }
            if i == 0 {
                lower = num;
                upper = num;
            } else {
                match widen(upper, num) {
                    Some(w) => {
                        upper = w;
                    },
                    None => {
                        proof {
                            lemma_values_prefix(toks, i + 1);
                            if token_values(toks) is Some && upper_end(
                                token_values(toks)->Some_0,
                            ) is Some {
                                lemma_upper_prefix(token_values(toks)->Some_0, i + 1);
                            }
                        }
                        return Err(());
                    },
                }
            }
            i += 1;
        }
        assert(toks.take(tokens.len() as int) == toks);
        if i == 0 || lower > upper {
            Err(())
        } else {
            Ok(Range { min: lower, max: upper })
        }
    }

    /// The span that the matches of the number pattern give: the whole of
    /// each match is one token.
    pub fn from_matches(found: &Vec<Vec<Option<String>>>) -> (r: Result<Range, ()>)
        ensures
            match r {
                Ok(range) => span_of_matches(Some(matches_of(*found))) == Some(range@),
                Err(_) => span_of_matches(Some(matches_of(*found))) is None,
            },
    {
        let tokens = match_tokens(found);
        Range::from_tokens(&tokens)
    }

    /// Reads the span that a text writes: the numbers found in it, in decimal
    /// or Roman numerals, give its ends.
    pub fn parse(s: &str) -> (r: Result<Range, ()>)
        ensures
            match r {
                Ok(range) => span_of_text(s@) == Some(range@),
                Err(_) => span_of_text(s@) is None,
            },
    {
        parse_range(s)
    }

    /// Writes the span: one numeral where both ends are the same, else both
    /// with an en dash between them.
    pub fn render(&self) -> (r: String)
        ensures
            r@ == span_text(self@),
    {
        format_range(self.min, self.max)
    }

    /// Compares two spans by the lower end, then by the upper end.
    pub fn compare(&self, other: &Range) -> (r: Order)
        ensures
            r == span_order(self@, other@),
    {
        if self.min < other.min {
            Order::Less
        } else if self.min > other.min {
            Order::Greater
        } else if self.max < other.max {
            Order::Less
        } else if self.max > other.max {
            Order::Greater
        } else {
            Order::Equal
        }
    }
}

impl From<u32> for Range {
    /// The span of a single number.
    fn from(n: u32) -> (r: Range) {
        Range::single(n)
    }
}

impl vstd::std_specs::convert::FromSpecImpl<u32> for Range {
    open spec fn obeys_from_spec() -> bool {
        true
    }

    closed spec fn from_spec(n: u32) -> Range {
        Range { min: n, max: n }
    }
}

/// The span made from a number is the span of that number alone.
pub proof fn lemma_span_from_number(n: u32)
    ensures
        <Range as vstd::std_specs::convert::FromSpec<u32>>::from_spec(n)@ == (Span {
            min: n as nat,
            max: n as nat,
        }),
{
}

impl FieldValue for Range {
    open spec fn read(s: Seq<char>) -> Option<Span> {
        span_of_text(s)
    }

    open spec fn shown(v: Span) -> Seq<char> {
        span_text(v)
    }

    open spec fn order(a: Span, b: Span) -> Order {
        span_order(a, b)
    }

    fn parse_value(s: &str) -> (r: Option<Range>) {
        match Range::parse(s) {
            Ok(range) => Some(range),
            Err(_) => None,
        }
    }

    fn render_value(&self) -> (r: String) {
        self.render()
    }

    fn compare_value(&self, other: &Range) -> (r: Order) {
        self.compare(other)
    }
}

/// The tokens of a run of matches: the whole of each match, in order. A
/// match without a text counts as an empty token.
pub fn match_tokens(found: &Vec<Vec<Option<String>>>) -> (tokens: Vec<String>)
    ensures
        texts_of(tokens) == tokens_of_matches(matches_of(*found)),
{
    let mut tokens: Vec<String> = Vec::new();
    let mut i: usize = 0;
    let ghost all = tokens_of_matches(matches_of(*found));
    while i < found.len()
        invariant
            i <= found.len(),
            all == tokens_of_matches(matches_of(*found)),
            texts_of(tokens) == all.take(i as int),
        decreases found.len() - i,
    {
        let token = match group(&found[i], 0) {
            Some(t) => text_of(&t),
            None => String::new(),
        };
        let ghost before = texts_of(tokens);
        tokens.push(token);
        proof {
            assert(texts_of(tokens) =~= before.push(token@));
            assert(all.take(i + 1) =~= all.take(i as int).push(all[i as int]));
        }
        i += 1;
    }
    assert(all.take(found.len() as int) == all);
    tokens
}

/// Finds the tokens of a text with the number pattern.
pub fn number_tokens(s: &str) -> (r: Option<Vec<String>>)
    ensures
        match r {
            Some(tokens) => tokens_of_text(s@) == Some(texts_of(tokens)),
            None => tokens_of_text(s@) is None,
        },
{
    match captures_iter(NUMBER_PATTERN, s) {
        Some(found) => Some(match_tokens(&found)),
        None => None,
    }
}

/// Reads the span that a text writes: the numbers that the number pattern
/// finds in it are its tokens.
pub fn parse_range(s: &str) -> (r: Result<Range, ()>)
    ensures
        match r {
            Ok(range) => span_of_text(s@) == Some(range@),
            Err(_) => span_of_text(s@) is None,
        },
{
    match captures_iter(NUMBER_PATTERN, s) {
        Some(found) => Range::from_matches(&found),
        None => Err(()),
    }
}

/// Writes the span from `min` to `max`.
pub fn format_range(min: u32, max: u32) -> (text: String)
    ensures
        text@ == span_text(Span { min: min as nat, max: max as nat }),
{
    let mut r = render_decimal(min);
    if min != max {
        r.push(EN_DASH);
        let mut upper = render_decimal(max);
        r.append(&mut upper);
        assert(r@ == decimal_text(min as nat) + seq![EN_DASH] + decimal_text(max as nat));
    }
    text_of(&r)
}

/// Two numerals, the first of a smaller number than the second, give the
/// span between the two numbers.
pub proof fn lemma_two_numerals_give_span(a: nat, b: nat)
    requires
        a < b <= u32::MAX,
    ensures
        span_of_tokens(seq![decimal_text(a), decimal_text(b)]) == Some(Span { min: a, max: b }),
{
    lemma_decimal_round_trip(a);
    lemma_decimal_round_trip(b);
    let tokens = seq![decimal_text(a), decimal_text(b)];
    let one = tokens.drop_last();
    assert(one.len() == 1 && one.last() == decimal_text(a));
    assert(one.drop_last().len() == 0);
    assert(token_values(one.drop_last()) == Some(Seq::<nat>::empty()));
    assert(token_values(one) == Some(Seq::<nat>::empty().push(a)));
    assert(tokens.last() == decimal_text(b));
    let values = Seq::<nat>::empty().push(a).push(b);
    assert(token_values(tokens) == Some(values));
    assert(values.drop_last() =~= Seq::<nat>::empty().push(a));
    assert(upper_end(values.drop_last()) == Some(a));
    assert(upper_end(values) == Some(b));
}

/// Reading the text of a span whose ends differ gives the span back,
/// provided that the number pattern finds in the text its two numerals and
/// nothing else.
pub proof fn lemma_written_span_is_read_back(a: nat, b: nat)
    requires
        a < b <= u32::MAX,
        all_matches(NUMBER_PATTERN@, span_text(Span { min: a, max: b })) == Some(
            seq![seq![Some(decimal_text(a))], seq![Some(decimal_text(b))]],
        ),
    ensures
        span_of_text(span_text(Span { min: a, max: b })) == Some(Span { min: a, max: b }),
{
    lemma_two_numerals_give_span(a, b);
    let found = seq![seq![Some(decimal_text(a))], seq![Some(decimal_text(b))]];
    let tokens = tokens_of_matches(found);
    assert(tokens == seq![decimal_text(a), decimal_text(b)]);
}

/// One numeral gives the span of its number alone.
pub proof fn lemma_one_numeral_gives_span(a: nat)
    requires
        a <= u32::MAX,
    ensures
        span_of_tokens(seq![decimal_text(a)]) == Some(Span { min: a, max: a }),
{
    lemma_decimal_round_trip(a);
    let one = seq![decimal_text(a)];
    assert(one.len() == 1 && one.last() == decimal_text(a));
    assert(one.drop_last().len() == 0);
    assert(token_values(one.drop_last()) == Some(Seq::<nat>::empty()));
    assert(token_values(one) == Some(Seq::<nat>::empty().push(a)));
}

/// Where the tokens write numbers, so does each of their beginnings, and the
/// numbers are the same.
proof fn lemma_values_prefix(tokens: Seq<Seq<char>>, i: int)
    requires
        0 <= i <= tokens.len(),
    ensures
        token_values(tokens) is Some ==> token_values(tokens.take(i)) is Some
            && token_values(tokens.take(i))->Some_0 == token_values(tokens)->Some_0.take(i),
        token_values(tokens) is Some ==> token_values(tokens)->Some_0.len() == tokens.len(),
    decreases tokens.len(),
{
    if tokens.len() == 0 {
        assert(tokens.take(i) == tokens);
        assert(token_values(tokens)->Some_0.take(i) == token_values(tokens)->Some_0);
    } else if token_values(tokens) is Some {
        let values = token_values(tokens)->Some_0;
        lemma_values_prefix(tokens.drop_last(), tokens.len() - 1);
        if i == tokens.len() {
            assert(tokens.take(i) == tokens);
            assert(values.take(i) == values);
        } else {
            lemma_values_prefix(tokens.drop_last(), i);
            assert(tokens.drop_last().take(i) == tokens.take(i));
            let shorter = token_values(tokens.drop_last())->Some_0;
            assert(values == shorter.push(token_value(tokens.last())->Some_0));
            assert(shorter.take(i) == values.take(i));
        }
    }
}

/// Where a run of numbers has an upper end, so does each of its beginnings.
proof fn lemma_upper_prefix(values: Seq<nat>, i: int)
    requires
        1 <= i <= values.len(),
        upper_end(values) is Some,
    ensures
        upper_end(values.take(i)) is Some,
    decreases values.len(),
{
    if i == values.len() {
        assert(values.take(i) == values);
    } else {
        lemma_upper_prefix(values.drop_last(), i);
        assert(values.drop_last().take(i) == values.take(i));
    }
}

} // verus!
