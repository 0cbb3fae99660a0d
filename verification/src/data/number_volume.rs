//! The issue number and the volume of a periodical.

use vstd::prelude::*;
use vstd::string::StringExecFns;
use crate::text::{Order, text_of};
use crate::pattern::{captures, first_match, group, group_at, groups_of};
use crate::data::range::{Range, Span, number_tokens, span_of_run, span_of_text, span_order,
    span_text, texts_of, tokens_of_text};
use crate::data::field::FieldValue;

verus! {

/// The pattern of the issue number: its mark, then the numbers.
pub const NUMBER_MARK: &'static str = r"N(?:úmeros?)?[.:]? ?((?:[\-e]? *\d+ *)+)";

/// The pattern of the volume: its mark, then the numbers.
pub const VOLUME_MARK: &'static str = r"V(?:olumes?)?[.:]? ?((?:[\-e]? *(?:\d+|[XIV]+))+)";

/// Issue number and volume, each a span; at least one of them is there.
#[derive(Clone, Copy, Debug, PartialEq, Eq, Hash)]
pub struct NumberVolume {
    number: Option<Range>,
    volume: Option<Range>,
}

/// The mathematical value of a `NumberVolume`.
pub struct Issue {
    pub number: Option<Span>,
    pub volume: Option<Span>,
}

/// The span of an optional range.
pub open spec fn span_of(r: Option<Range>) -> Option<Span> {
    match r {
        Some(range) => Some(range@),
        None => None,
    }
}

impl View for NumberVolume {
    type V = Issue;

    closed spec fn view(&self) -> Issue {
        Issue { number: span_of(self.number), volume: span_of(self.volume) }
    }
}

/// The value made of two optional spans: there is none where both are
/// missing.
pub open spec fn issue_of(number: Option<Span>, volume: Option<Span>) -> Option<Issue> {
    if number is None && volume is None {
        None
    } else {
        Some(Issue { number, volume })
    }
}

/// The span written in the first capture group of a match, if the mark was
/// found and the group writes one.
pub open spec fn marked_span(found: Option<Seq<Option<Seq<char>>>>) -> Option<Span> {
    match found {
        Some(groups) => match group_at(groups, 1) {
            Some(t) => span_of_text(t),
            None => None,
        },
        None => None,
    }
}

/// The value that a text writes: the span after the mark of the number and
/// the span after the mark of the volume, each looked for on its own.
pub open spec fn issue_of_text(s: Seq<char>) -> Option<Issue> {
    issue_of(
        marked_span(first_match(NUMBER_MARK@, s)),
        marked_span(first_match(VOLUME_MARK@, s)),
    )
}

/// The text of a value: number and volume after their marks, with a comma
/// between them where both are there.
pub open spec fn issue_text(v: Issue) -> Seq<char> {
    match (v.number, v.volume) {
        (Some(n), Some(vol)) => "n.~"@ + span_text(n) + ", v.~"@ + span_text(vol),
        (Some(n), None) => "n.~"@ + span_text(n),
        (None, Some(vol)) => "v.~"@ + span_text(vol),
        (None, None) => Seq::empty(),
    }
}

/// The order of two optional spans: a missing one comes first.
pub open spec fn optional_span_order(a: Option<Span>, b: Option<Span>) -> Order {
    match (a, b) {
        (None, None) => Order::Equal,
        (None, Some(_)) => Order::Less,
        (Some(_), None) => Order::Greater,
        (Some(x), Some(y)) => span_order(x, y),
    }
}

/// The order of two values: by the number, then by the volume.
pub open spec fn issue_order(a: Issue, b: Issue) -> Order {
    match optional_span_order(a.number, b.number) {
        Order::Equal => optional_span_order(a.volume, b.volume),
        o => o,
    }
}

/// Compares two optional spans.
fn compare_optional(a: &Option<Range>, b: &Option<Range>) -> (r: Order)
    ensures
        r == optional_span_order(span_of(*a), span_of(*b)),
{
    match (a, b) {
        (None, None) => Order::Equal,
        (None, Some(_)) => Order::Less,
        (Some(_), None) => Order::Greater,
        (Some(x), Some(y)) => x.compare(y),
    }
}

/// The groups of an optional match.
pub open spec fn found_groups(found: Option<Vec<Option<String>>>) -> Option<
    Seq<Option<Seq<char>>>,
> {
    match found {
        Some(g) => Some(groups_of(g)),
        None => None,
    }
}

/// The run of number tokens in the first capture group of a match, if the
/// mark was found.
pub open spec fn marked_run(found: Option<Seq<Option<Seq<char>>>>) -> Option<Seq<Seq<char>>> {
    match found {
        Some(groups) => match group_at(groups, 1) {
            Some(t) => tokens_of_text(t),
            None => None,
        },
        None => None,
    }
}

/// The texts of an optional run of tokens.
pub open spec fn run_of(run: Option<Vec<String>>) -> Option<Seq<Seq<char>>> {
    match run {
        Some(tokens) => Some(texts_of(tokens)),
        None => None,
    }
}

/// Finds the run of number tokens in the first capture group of a match.
fn marked(found: &Option<Vec<Option<String>>>) -> (r: Option<Vec<String>>)
    ensures
        run_of(r) == marked_run(found_groups(*found)),
        span_of_run(run_of(r)) == marked_span(found_groups(*found)),
{
    match found {
        Some(groups) => match group(groups, 1) {
            Some(t) => {
                let text = text_of(&t);
                number_tokens(text.as_str())
            },
            None => None,
        },
        None => None,
    }
}

/// Reads the span of an optional run of tokens.
fn run_span(run: &Option<Vec<String>>) -> (r: Option<Range>)
    ensures
        span_of(r) == span_of_run(run_of(*run)),
{
    match run {
        Some(tokens) => match Range::from_tokens(tokens) {
            Ok(range) => Some(range),
            Err(_) => None,
        },
        None => None,
    }
}

impl NumberVolume {
    #[verifier::type_invariant]
    spec fn holds_one(self) -> bool {
        self.number is Some || self.volume is Some
    }

    /// The value made of a number and a volume, where at least one of them
    /// is there.
    pub fn new(number: Option<Range>, volume: Option<Range>) -> (r: Result<NumberVolume, ()>)
        ensures
            match r {
                Ok(v) => issue_of(span_of(number), span_of(volume)) == Some(v@),
                Err(_) => issue_of(span_of(number), span_of(volume)) is None,
            },
    {
        if number.is_none() && volume.is_none() {
            Err(())
        } else {
            Ok(NumberVolume { number, volume })
        }
    }

    /// The issue number. Where there is none, there is a volume.
    pub fn number(&self) -> (r: Option<Range>)
        ensures
            span_of(r) == self@.number,
            self@.number is Some || self@.volume is Some,
    {
        proof {
            use_type_invariant(self);
        }
        self.number
    }

    /// The volume. Where there is none, there is a number.
    pub fn volume(&self) -> (r: Option<Range>)
        ensures
            span_of(r) == self@.volume,
            self@.number is Some || self@.volume is Some,
    {
        proof {
            use_type_invariant(self);
        }
        self.volume
    }

    /// Reads number and volume from a text.
    pub fn parse(s: &str) -> (r: Result<NumberVolume, ()>)
        ensures
            match r {
                Ok(v) => issue_of_text(s@) == Some(v@),
                Err(_) => issue_of_text(s@) is None,
            },
    {
        let number_found = captures(NUMBER_MARK, s);
        let volume_found = captures(VOLUME_MARK, s);
        NumberVolume::from_matches(&number_found, &volume_found)
    }

    /// The value that the matches of the two marks give: each match that
    /// was found holds its span in its first capture group.
    pub fn from_matches(
        number_found: &Option<Vec<Option<String>>>,
        volume_found: &Option<Vec<Option<String>>>,
    ) -> (r: Result<NumberVolume, ()>)
        ensures
            match r {
                Ok(v) => issue_of(
                    marked_span(found_groups(*number_found)),
                    marked_span(found_groups(*volume_found)),
                ) == Some(v@),
                Err(_) => issue_of(
                    marked_span(found_groups(*number_found)),
                    marked_span(found_groups(*volume_found)),
                ) is None,
            },
    {
        let number = marked(number_found);
        let volume = marked(volume_found);
        NumberVolume::from_runs(&number, &volume)
    }

    /// The value that two optional runs of number tokens give: the tokens
    /// after the mark of the number, and those after the mark of the
    /// volume. A run that is missing, or gives no span, leaves its side
    /// out; there is no value where both sides are left out.
    pub fn from_runs(
        number: &Option<Vec<String>>,
        volume: &Option<Vec<String>>,
    ) -> (r: Result<NumberVolume, ()>)
        ensures
            match r {
                Ok(v) => issue_of(span_of_run(run_of(*number)), span_of_run(run_of(*volume)))
                    == Some(v@),
                Err(_) => issue_of(span_of_run(run_of(*number)), span_of_run(run_of(*volume)))
                    is None,
            },
    {
        NumberVolume::new(run_span(number), run_span(volume))
    }

    /// Writes number and volume.
    pub fn render(&self) -> (r: String)
        ensures
            r@ == issue_text(self@),
    {
        let mut r = String::new();
        match (&self.number, &self.volume) {
            (Some(n), Some(v)) => {
                r.append("n.~");
                r.append(n.render().as_str());
                r.append(", v.~");
                r.append(v.render().as_str());
            },
            (Some(n), None) => {
                r.append("n.~");
                r.append(n.render().as_str());
            },
            (None, Some(v)) => {
                r.append("v.~");
                r.append(v.render().as_str());
            },
            (None, None) => {},
        }
        r
    }

    /// Compares two values by the number, then by the volume.
    pub fn compare(&self, other: &NumberVolume) -> (r: Order)
        ensures
            r == issue_order(self@, other@),
    {
        match compare_optional(&self.number, &other.number) {
            Order::Equal => compare_optional(&self.volume, &other.volume),
            o => o,
        }
    }
}

impl FieldValue for NumberVolume {
    open spec fn read(s: Seq<char>) -> Option<Issue> {
        issue_of_text(s)
    }

    open spec fn shown(v: Issue) -> Seq<char> {
        issue_text(v)
    }

    open spec fn order(a: Issue, b: Issue) -> Order {
        issue_order(a, b)
    }

    fn parse_value(s: &str) -> (r: Option<NumberVolume>) {
        match NumberVolume::parse(s) {
            Ok(v) => Some(v),
            Err(_) => None,
        }
    }

    fn render_value(&self) -> (r: String) {
        self.render()
    }

    fn compare_value(&self, other: &NumberVolume) -> (r: Order) {
        self.compare(other)
    }
}

} // verus!
