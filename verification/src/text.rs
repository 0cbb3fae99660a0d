//! Text as sequences of characters: conversions, comparisons and decimal
//! numerals. Contracts speak of a string through its view, a `Seq<char>`.

use vstd::prelude::*;
use vstd::string::StrSliceExecFns;

verus! {

/// Result of comparing two values of an ordered type.
#[derive(Clone, Copy, Debug, PartialEq, Eq, Structural)]
pub enum Order {
    Less,
    Equal,
    Greater,
}

/// The result of the comparison with the two sides exchanged.
pub open spec fn flipped(o: Order) -> Order {
    match o {
        Order::Less => Order::Greater,
        Order::Equal => Order::Equal,
        Order::Greater => Order::Less,
    }
}

/// What `char::is_whitespace` returns for a character: whether Unicode
/// gives it the property `White_Space`.
pub uninterp spec fn white_space(c: char) -> bool;

/// What `str::to_lowercase` returns for a text: its Unicode lower-case form.
pub uninterp spec fn lowercased(s: Seq<char>) -> Seq<char>;

/// `char::is_whitespace`: the result is what `white_space` names for the
/// character. Of the characters of ASCII, up to U+007F, none is white space
/// but the blank and the five from the tab to the carriage return.
pub assume_specification[ char::is_whitespace ](c: char) -> (b: bool)
    ensures
        b == white_space(c),
        b && c <= '\u{7f}' ==> c == ' ' || ('\t' <= c && c <= '\r'),
;

/// `str::to_lowercase`: the result is the text that `lowercased` names for the
/// argument.
pub assume_specification[ str::to_lowercase ](s: &str) -> (r: String)
    ensures
        r@ == lowercased(s@),
;

/// `String::push`: the character is appended at the end.
pub assume_specification[ String::push ](s: &mut String, c: char)
    ensures
        final(s)@ == old(s)@.push(c),
;

/// Whether a character is one of the white-space characters of ASCII: the
/// blank, the tab, the line feed, the vertical tab, the form feed and the
/// carriage return.
pub open spec fn is_ascii_space(c: char) -> bool {
    c == ' ' || ('\t' <= c && c <= '\r')
}

/// Whether a character is white space: one of the white-space characters of
/// ASCII, or a character beyond ASCII that Unicode counts as white space.
pub open spec fn is_space(c: char) -> bool {
    is_ascii_space(c) || (white_space(c) && c > '\u{7f}')
}

/// Tests whether a character is white space.
pub fn space(c: char) -> (b: bool)
    ensures
        b == is_space(c),
{
    c == ' ' || ('\t' <= c && c <= '\r') || c.is_whitespace()
}

/// Whether a text is white space throughout.
pub open spec fn all_space(s: Seq<char>) -> bool {
    forall|i: int| 0 <= i < s.len() ==> is_space(#[trigger] s[i])
}

/// The number of characters of white space at the start of a text.
pub open spec fn leading_space(s: Seq<char>) -> nat
    decreases s.len(),
{
    if s.len() > 0 && is_space(s[0]) {
        1 + leading_space(s.drop_first())
    } else {
        0
    }
}

/// The number of characters of white space at the end of a text.
pub open spec fn trailing_space(s: Seq<char>) -> nat
    decreases s.len(),
{
    if s.len() > 0 && is_space(s.last()) {
        1 + trailing_space(s.drop_last())
    } else {
        0
    }
}

/// A text without the white space at its start and at its end.
pub open spec fn trimmed(s: Seq<char>) -> Seq<char> {
    if leading_space(s) >= s.len() {
        Seq::empty()
    } else {
        s.subrange(leading_space(s) as int, s.len() - trailing_space(s))
    }
}

/// The white space at the start of a text ends where its first `at`
/// characters are white space and the next one, if there is one, is not.
pub proof fn lemma_leading_space(s: Seq<char>, at: int)
    requires
        0 <= at <= s.len(),
        all_space(s.take(at)),
        at < s.len() ==> !is_space(s[at]),
    ensures
        leading_space(s) == at,
    decreases at,
{
    if at > 0 {
        assert(s.take(at)[0] == s[0]);
        let rest = s.drop_first();
        assert forall|i: int| 0 <= i < at - 1 implies is_space(#[trigger] rest.take(at - 1)[i]) by {
            assert(rest.take(at - 1)[i] == s.take(at)[i + 1]);
        }
        lemma_leading_space(rest, at - 1);
    }
}

/// The white space at the end of a text begins where all from `at` on is
/// white space and the character before, if there is one, is not.
pub proof fn lemma_trailing_space(s: Seq<char>, at: int)
    requires
        0 <= at <= s.len(),
        all_space(s.skip(at)),
        at > 0 ==> !is_space(s[at - 1]),
    ensures
        trailing_space(s) == s.len() - at,
    decreases s.len() - at,
{
    if at < s.len() {
        assert(s.skip(at)[s.len() - at - 1] == s.last());
        let rest = s.drop_last();
        assert forall|i: int| 0 <= i < rest.len() - at implies is_space(
            #[trigger] rest.skip(at)[i],
        ) by {
            assert(rest.skip(at)[i] == s.skip(at)[i]);
        }
        lemma_trailing_space(rest, at);
    }
}

/// White space around a text that neither begins nor ends with white space
/// is trimmed away, and nothing else.
pub proof fn lemma_trimmed_frame(before: Seq<char>, p: Seq<char>, after: Seq<char>)
    requires
        all_space(before),
        all_space(after),
        p.len() > 0 ==> !is_space(p[0]) && !is_space(p.last()),
    ensures
        trimmed(before + p + after) == p,
{
    let s = before + p + after;
    if p.len() == 0 {
        assert forall|i: int| 0 <= i < s.len() implies is_space(#[trigger] s.take(s.len() as int)[i]) by {
            if i < before.len() {
                assert(s[i] == before[i]);
            } else {
                assert(s[i] == after[i - before.len()]);
            }
        }
        lemma_leading_space(s, s.len() as int);
        assert(p == Seq::<char>::empty());
    } else {
        let a = before.len() as int;
        let b = a + p.len();
        assert(s.take(a) == before);
        assert(s[a] == p[0]);
        lemma_leading_space(s, a);
        assert(s.skip(b) == after);
        assert(s[b - 1] == p.last());
        lemma_trailing_space(s, b);
        assert(s.subrange(a, b) == p);
    }
}

/// A text without the white space at its start and at its end.
pub fn trim(s: &str) -> (r: &str)
    ensures
        r@ == trimmed(s@),
{
    let chars = chars_of(s);
    let n: usize = chars.len();
    let mut start: usize = 0;
    while start < n && space(chars[start])
        invariant
            start <= n,
            n == chars.len(),
            chars@ == s@,
            all_space(chars@.take(start as int)),
        decreases n - start,
    {
        start += 1;
    }
    proof {
        lemma_leading_space(chars@, start as int);
    }
    if start == n {
        return s.substring_char(0, 0);
    }
    let mut end: usize = n;
    while end > start + 1 && space(chars[end - 1])
        invariant
            start < end <= n,
            n == chars.len(),
            chars@ == s@,
            !is_space(chars@[start as int]),
            all_space(chars@.skip(end as int)),
        decreases end,
    {
        end -= 1;
        assert forall|i: int| 0 <= i < n - end implies is_space(
            #[trigger] chars@.skip(end as int)[i],
        ) by {
            if i > 0 {
                assert(chars@.skip(end as int)[i] == chars@.skip(end + 1)[i - 1]);
            }
        }
    }
    proof {
        lemma_trailing_space(chars@, end as int);
    }
    s.substring_char(start, end)
}

/// The characters of a string, in order.
pub fn chars_of(s: &str) -> (v: Vec<char>)
    ensures
        v@ == s@,
{
    let mut v: Vec<char> = Vec::new();
    for c in it: s.chars()
        invariant
            it.seq() == s@,
            v@ == it.seq().take(it.index()),
    {
        v.push(c);
    }
    assert(s@.take(s@.len() as int) == s@);
    v
}

/// The string made of the given characters, in order.
pub fn text_of(v: &Vec<char>) -> (s: String)
    ensures
        s@ == v@,
{
    let mut s: String = String::new();
    let mut i: usize = 0;
    while i < v.len()
        invariant
            i <= v.len(),
            s@ == v@.take(i as int),
        decreases v.len() - i,
    {
        s.push(v[i]);
        i += 1;
    }
    s
}

/// Whether two sequences of characters are the same text.
pub fn same_chars(a: &Vec<char>, b: &Vec<char>) -> (r: bool)
    ensures
        r == (a@ == b@),
{
    if a.len() != b.len() {
        return false;
    }
    let mut i: usize = 0;
    while i < a.len()
        invariant
            a.len() == b.len(),
            i <= a.len(),
            a@.take(i as int) == b@.take(i as int),
        decreases a.len() - i,
    {
        if a[i] != b[i] {
            return false;
        }
        assert(a@.take(i + 1) == a@.take(i as int).push(a@[i as int]));
        assert(b@.take(i + 1) == b@.take(i as int).push(b@[i as int]));
        i += 1;
    }
    assert(a@.take(a.len() as int) == a@);
    assert(b@.take(b.len() as int) == b@);
    true
}

/// Whether the characters spell exactly the given word.
pub fn is_word(a: &Vec<char>, word: &str) -> (r: bool)
    ensures
        r == (a@ == word@),
{
    let w = chars_of(word);
    same_chars(a, &w)
}

/// Whether `s` begins with `prefix`.
pub open spec fn has_prefix(s: Seq<char>, prefix: Seq<char>) -> bool {
    prefix.len() <= s.len() && s.take(prefix.len() as int) == prefix
}

/// Whether `sub` occurs in `s` at position `at`.
pub open spec fn occurs_at(s: Seq<char>, sub: Seq<char>, at: int) -> bool {
    0 <= at && at + sub.len() <= s.len() && s.subrange(at, at + sub.len()) == sub
}

/// Whether `sub` occurs somewhere in `s`.
pub open spec fn has_infix(s: Seq<char>, sub: Seq<char>) -> bool {
    exists|at: int| occurs_at(s, sub, at)
}

/// Tests whether `sub` occurs in `a` at position `at`.
pub fn word_at(a: &Vec<char>, sub: &Vec<char>, at: usize) -> (r: bool)
    ensures
        r == occurs_at(a@, sub@, at as int),
{
    if at > a.len() || sub.len() > a.len() - at {
        return false;
    }
    let mut i: usize = 0;
    while i < sub.len()
        invariant
            at + sub.len() <= a.len(),
            i <= sub.len(),
            a@.subrange(at as int, at + i) == sub@.take(i as int),
        decreases sub.len() - i,
    {
        if a[at + i] != sub[i] {
            assert(a@.subrange(at as int, at + sub.len())[i as int] == a@[at + i]);
            return false;
        }
        assert(a@.subrange(at as int, at + i + 1) == a@.subrange(at as int, at + i).push(
            a@[at + i],
        ));
        assert(sub@.take(i + 1) == sub@.take(i as int).push(sub@[i as int]));
        i += 1;
    }
    assert(sub@.take(sub.len() as int) == sub@);
    true
}

/// Tests whether the characters begin with the given word.
pub fn starts_with_word(a: &Vec<char>, word: &str) -> (r: bool)
    ensures
        r == has_prefix(a@, word@),
{
    let w = chars_of(word);
    let r = word_at(a, &w, 0);
    assert(w@.len() <= a@.len() ==> a@.take(w@.len() as int) == a@.subrange(0, w@.len() as int));
    r
}

/// Tests whether the given word occurs somewhere in the characters.
pub fn contains_word(a: &Vec<char>, word: &str) -> (r: bool)
    ensures
        r == has_infix(a@, word@),
{
    let w = chars_of(word);
    let mut at: usize = 0;
    while at < a.len()
        invariant
            w@ == word@,
            at <= a.len(),
            forall|k: int| 0 <= k < at ==> !occurs_at(a@, w@, k),
        decreases a.len() - at,
    {
        if word_at(a, &w, at) {
            return true;
        }
        at += 1;
    }
    word_at(a, &w, at)
}

/// The lexicographic order of two texts by the code points of their
/// characters, which is the order of the strings themselves.
pub open spec fn text_order(a: Seq<char>, b: Seq<char>) -> Order
    decreases a.len(),
{
    if a.len() == 0 && b.len() == 0 {
        Order::Equal
    } else if a.len() == 0 {
        Order::Less
    } else if b.len() == 0 {
        Order::Greater
    } else if a[0] < b[0] {
        Order::Less
    } else if a[0] > b[0] {
        Order::Greater
    } else {
        text_order(a.drop_first(), b.drop_first())
    }
}

/// Compares two texts lexicographically.
pub fn compare_chars(a: &Vec<char>, b: &Vec<char>) -> (r: Order)
    ensures
        r == text_order(a@, b@),
{
    let mut i: usize = 0;
    assert(a@.skip(0) == a@ && b@.skip(0) == b@);
    while i < a.len() && i < b.len()
        invariant
            i <= a.len(),
            i <= b.len(),
            text_order(a@, b@) == text_order(a@.skip(i as int), b@.skip(i as int)),
        decreases a.len() - i,
    {
        let x: char = a[i];
        let y: char = b[i];
        assert(a@.skip(i as int)[0] == a@[i as int]);
        assert(b@.skip(i as int)[0] == b@[i as int]);
        if x < y {
            return Order::Less;
        }
        if x > y {
            return Order::Greater;
        }
        assert(a@.skip(i as int).drop_first() == a@.skip(i + 1));
        assert(b@.skip(i as int).drop_first() == b@.skip(i + 1));
        i += 1;
    }
    if i < b.len() {
        Order::Less
    } else if i < a.len() {
        Order::Greater
    } else {
        Order::Equal
    }
}

/// Compares two strings lexicographically.
pub fn compare_text(a: &str, b: &str) -> (r: Order)
    ensures
        r == text_order(a@, b@),
{
    let x = chars_of(a);
    let y = chars_of(b);
    compare_chars(&x, &y)
}


/// The value of a decimal digit.
pub open spec fn digit_value(c: char) -> Option<nat> {
    if '0' <= c && c <= '9' {
        Some((c as nat - '0' as nat) as nat)
    } else {
        None
    }
}

/// The number that a text of decimal digits writes; `None` where the text is
/// empty or holds anything but the digits `0` to `9`.
pub open spec fn decimal_value(s: Seq<char>) -> Option<nat>
    decreases s.len(),
{
    if s.len() == 0 {
        None
    } else if s.len() == 1 {
        digit_value(s[0])
    } else {
        match (decimal_value(s.drop_last()), digit_value(s.last())) {
            (Some(high), Some(d)) => Some(high * 10 + d),
            _ => None,
        }
    }
}

/// The number that the text writes, where it is a decimal numeral of a
/// number up to `max`.
pub open spec fn decimal_up_to(s: Seq<char>, max: nat) -> Option<nat> {
    match decimal_value(s) {
        Some(n) => if n <= max {
            Some(n)
        } else {
            None
        },
        None => None,
    }
}

/// A decimal numeral is at least as great as each of its beginnings.
pub proof fn lemma_decimal_prefix(s: Seq<char>, i: int)
    requires
        1 <= i <= s.len(),
        decimal_value(s) is Some,
    ensures
        decimal_value(s.take(i)) is Some,
        decimal_value(s.take(i))->Some_0 <= decimal_value(s)->Some_0,
    decreases s.len(),
{
    if i == s.len() {
        assert(s.take(i) == s);
    } else {
        assert(s.len() >= 2);
        lemma_decimal_prefix(s.drop_last(), i);
        assert(s.drop_last().take(i) == s.take(i));
    }
}

/// Reads a decimal numeral of a number up to `max`.
pub fn parse_decimal(s: &Vec<char>, max: u32) -> (r: Option<u32>)
    ensures
        match r {
            Some(n) => decimal_up_to(s@, max as nat) == Some(n as nat),
            None => decimal_up_to(s@, max as nat) is None,
        },
{
    if s.len() == 0 {
        return None;
    }
    let mut acc: u64 = 0;
    let mut i: usize = 0;
    while i < s.len()
        invariant
            i <= s.len(),
            acc <= max,
            i > 0 ==> decimal_value(s@.take(i as int)) == Some(acc as nat),
            i == 0 ==> acc == 0,
        decreases s.len() - i,
    {
        let c: char = s[i];
        proof {
            assert(s@.take(i + 1).drop_last() == s@.take(i as int));
            assert(s@.take(i + 1).last() == c);
            if decimal_value(s@) is Some {
                lemma_decimal_prefix(s@, i + 1);
            }
        }
        if c < '0' || c > '9' {
            return None;
        }
        let d: u64 = (c as u64) - ('0' as u64);
        let next: u64 = acc * 10 + d;
        if next > max as u64 {
            return None;
        }
        acc = next;
        i += 1;
    }
    assert(s@.take(s.len() as int) == s@);
    Some(acc as u32)
}

/// The decimal numeral of a number, without leading zeros.
pub open spec fn decimal_text(n: nat) -> Seq<char>
    decreases n,
{
    if n < 10 {
        seq![(('0' as nat + n) as u8) as char]
    } else {
        decimal_text(n / 10).push((('0' as nat + n % 10) as u8) as char)
    }
}

/// Reading the numeral of a number gives the number back.
pub proof fn lemma_decimal_round_trip(n: nat)
    ensures
        decimal_value(decimal_text(n)) == Some(n),
        decimal_text(n).len() >= 1,
    decreases n,
{
    if n < 10 {
        assert(decimal_text(n).len() == 1);
        assert(decimal_text(n)[0] == (('0' as nat + n) as u8) as char);
    } else {
        lemma_decimal_round_trip(n / 10);
        let t = decimal_text(n);
        assert(t.drop_last() == decimal_text(n / 10));
        assert(t.last() == (('0' as nat + n % 10) as u8) as char);
        assert(t.len() >= 2);
    }
}

/// Writes a number as a decimal numeral.
pub fn render_decimal(n: u32) -> (r: Vec<char>)
    ensures
        r@ == decimal_text(n as nat),
    decreases n,
{
    let d: u8 = (n % 10) as u8;
    let c: char = (('0' as u8) + d) as char;
    if n < 10 {
        let mut r: Vec<char> = Vec::new();
        r.push(c);
        assert(r@ == seq![c]);
        r
    } else {
        let mut r = render_decimal(n / 10);
        r.push(c);
        r
    }
}

/// What `char::to_uppercase` returns for a character: its Unicode upper-case
/// form, which may be more than one character.
pub uninterp spec fn uppercased(c: char) -> Seq<char>;

/// Asks `char::to_uppercase` for the upper-case form of a character. The
/// contract claims only that the characters handed back are those that
/// `uppercased` names for it.
#[verifier::external_body]
fn to_uppercase(c: char) -> (r: Vec<char>)
    ensures
        r@ == uppercased(c),
{
    c.to_uppercase().collect()
}

/// A text with its first character in upper case.
pub open spec fn capitalized(s: Seq<char>) -> Seq<char> {
    if s.len() == 0 {
        s
    } else {
        uppercased(s[0]) + s.skip(1)
    }
}

/// Writes a text with its first character in upper case.
pub fn capitalize(s: &str) -> (r: String)
    ensures
        r@ == capitalized(s@),
{
    let chars = chars_of(s);
    if chars.len() == 0 {
        return String::new();
    }
    let mut out = to_uppercase(chars[0]);
    let mut i: usize = 1;
    while i < chars.len()
        invariant
            1 <= i <= chars.len(),
            chars@ == s@,
            out@ == uppercased(chars@[0]) + chars@.subrange(1, i as int),
        decreases chars.len() - i,
    {
        out.push(chars[i]);
        i += 1;
    }
    assert(chars@.subrange(1, chars.len() as int) == chars@.skip(1));
    text_of(&out)
}

/// A text with a backslash before each dollar sign.
pub open spec fn dollars_escaped(s: Seq<char>) -> Seq<char>
    decreases s.len(),
{
    if s.len() == 0 {
        Seq::empty()
    } else if s.last() == '$' {
        dollars_escaped(s.drop_last()).push('\\').push('$')
    } else {
        dollars_escaped(s.drop_last()).push(s.last())
    }
}

/// Writes a text with a backslash before each dollar sign.
pub fn escape_dollars(s: &str) -> (r: String)
    ensures
        r@ == dollars_escaped(s@),
{
    let chars = chars_of(s);
    let mut out: Vec<char> = Vec::new();
    let mut i: usize = 0;
    assert(chars@.take(0) == Seq::<char>::empty());
    while i < chars.len()
        invariant
            i <= chars.len(),
            out@ == dollars_escaped(chars@.take(i as int)),
        decreases chars.len() - i,
    {
        let c: char = chars[i];
        proof {
            assert(chars@.take(i + 1).drop_last() == chars@.take(i as int));
            assert(chars@.take(i + 1).last() == c);
        }
        if c == '$' {
            out.push('\\');
        }
        out.push(c);
        i += 1;
    }
    assert(chars@.take(chars.len() as int) == chars@);
    text_of(&out)
}

} // verus!
