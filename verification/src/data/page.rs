//! The page, or the pages, on which an entry stands.

use vstd::prelude::*;
use vstd::string::StringExecFns;
use crate::text::Order;
use crate::data::range::{Range, Span, span_of_text, span_order, span_text};
use crate::data::field::FieldValue;

verus! {

/// A span of pages.
#[derive(Clone, Copy, Debug, PartialEq, Eq, Hash)]
pub struct Page(pub Range);

impl View for Page {
    type V = Span;

    open spec fn view(&self) -> Span {
        self.0@
    }
}

/// The text of a span of pages: the span after the mark of a page.
pub open spec fn page_text(s: Span) -> Seq<char> {
    "p.~"@ + span_text(s)
}

impl From<Range> for Page {
    /// The pages of a span.
    fn from(range: Range) -> (r: Page) {
        Page(range)
    }
}

impl vstd::std_specs::convert::FromSpecImpl<Range> for Page {
    open spec fn obeys_from_spec() -> bool {
        true
    }

    open spec fn from_spec(range: Range) -> Page {
        Page(range)
    }
}

impl Page {
    /// Reads the pages that a text writes: the span of the numbers in it.
    pub fn parse(s: &str) -> (r: Result<Page, ()>)
        ensures
            match r {
                Ok(page) => span_of_text(s@) == Some(page@),
                Err(_) => span_of_text(s@) is None,
            },
    {
        match Range::parse(s) {
            Ok(range) => Ok(Page(range)),
            Err(e) => Err(e),
        }
    }

    /// Writes the pages.
    pub fn render(&self) -> (r: String)
        ensures
            r@ == page_text(self@),
    {
        let mut r = String::from_str("p.~");
        let span = self.0.render();
        r.append(span.as_str());
        r
    }

    /// Compares two spans of pages as spans.
    pub fn compare(&self, other: &Page) -> (r: Order)
        ensures
            r == span_order(self@, other@),
    {
        self.0.compare(&other.0)
    }
}

impl FieldValue for Page {
    open spec fn read(s: Seq<char>) -> Option<Span> {
        span_of_text(s)
    }

    open spec fn shown(v: Span) -> Seq<char> {
        page_text(v)
    }

    open spec fn order(a: Span, b: Span) -> Order {
        span_order(a, b)
    }

    fn parse_value(s: &str) -> (r: Option<Page>) {
        match Page::parse(s) {
            Ok(page) => Some(page),
            Err(_) => None,
        }
    }

    fn render_value(&self) -> (r: String) {
        self.render()
    }

    fn compare_value(&self, other: &Page) -> (r: Order) {
        self.compare(other)
    }
}

} // verus!
