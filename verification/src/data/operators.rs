//! The comparison operators on the ordered values: each goes by the order
//! that the value's `compare` computes.

use vstd::prelude::*;
use core::cmp::Ordering;
use vstd::std_specs::cmp::PartialOrdSpecImpl;
use crate::text::Order;
use crate::data::range::{Range, span_order};
use crate::data::page::Page;
use crate::data::number_volume::{NumberVolume, issue_order};
use crate::data::ata::{Ata, HistoricalDate, Session, citation_order, day_order, session_order};

verus! {

/// The result of a comparison as the operators of the language take it.
pub open spec fn ordering_of(o: Order) -> Option<Ordering> {
    match o {
        Order::Less => Some(Ordering::Less),
        Order::Equal => Some(Ordering::Equal),
        Order::Greater => Some(Ordering::Greater),
    }
}

/// Hands a comparison to the operators of the language.
pub fn to_ordering(o: Order) -> (r: Option<Ordering>)
    ensures
        r == ordering_of(o),
{
    match o {
        Order::Less => Some(Ordering::Less),
        Order::Equal => Some(Ordering::Equal),
        Order::Greater => Some(Ordering::Greater),
    }
}

/// A span is less than another by its lower end, then by its upper end.
impl PartialOrd for Range {
    fn partial_cmp(&self, other: &Range) -> (r: Option<Ordering>) {
        to_ordering(self.compare(other))
    }
}

impl PartialOrdSpecImpl for Range {
    open spec fn obeys_partial_cmp_spec() -> bool {
        true
    }

    open spec fn partial_cmp_spec(&self, other: &Range) -> Option<Ordering> {
        ordering_of(span_order(self@, other@))
    }
}

/// Pages are ordered as their spans.
impl PartialOrd for Page {
    fn partial_cmp(&self, other: &Page) -> (r: Option<Ordering>) {
        to_ordering(self.compare(other))
    }
}

impl PartialOrdSpecImpl for Page {
    open spec fn obeys_partial_cmp_spec() -> bool {
        true
    }

    open spec fn partial_cmp_spec(&self, other: &Page) -> Option<Ordering> {
        ordering_of(span_order(self@, other@))
    }
}

/// Number and volume are ordered by the number, then by the volume.
impl PartialOrd for NumberVolume {
    fn partial_cmp(&self, other: &NumberVolume) -> (r: Option<Ordering>) {
        to_ordering(self.compare(other))
    }
}

impl PartialOrdSpecImpl for NumberVolume {
    open spec fn obeys_partial_cmp_spec() -> bool {
        true
    }

    open spec fn partial_cmp_spec(&self, other: &NumberVolume) -> Option<Ordering> {
        ordering_of(issue_order(self@, other@))
    }
}

/// Dates are ordered in time.
impl PartialOrd for HistoricalDate {
    fn partial_cmp(&self, other: &HistoricalDate) -> (r: Option<Ordering>) {
        to_ordering(self.compare(other))
    }
}

impl PartialOrdSpecImpl for HistoricalDate {
    open spec fn obeys_partial_cmp_spec() -> bool {
        true
    }

    open spec fn partial_cmp_spec(&self, other: &HistoricalDate) -> Option<Ordering> {
        ordering_of(day_order(self@, other@))
    }
}

/// Kinds of sessions are ordered: ordinary, extraordinary, then the others by their text.
impl PartialOrd for Session {
    fn partial_cmp(&self, other: &Session) -> (r: Option<Ordering>) {
        to_ordering(self.compare(other))
    }
}

impl PartialOrdSpecImpl for Session {
    open spec fn obeys_partial_cmp_spec() -> bool {
        true
    }

    open spec fn partial_cmp_spec(&self, other: &Session) -> Option<Ordering> {
        ordering_of(session_order(self@, other@))
    }
}

/// Citations are ordered by the date, then by the number of the session, then by its kind.
impl PartialOrd for Ata {
    fn partial_cmp(&self, other: &Ata) -> (r: Option<Ordering>) {
        to_ordering(self.compare(other))
    }
}

impl PartialOrdSpecImpl for Ata {
    open spec fn obeys_partial_cmp_spec() -> bool {
        true
    }

    open spec fn partial_cmp_spec(&self, other: &Ata) -> Option<Ordering> {
        ordering_of(citation_order(self@, other@))
    }
}

} // verus!
