//! From markup events to records. The extractor takes the events of a
//! document one at a time; for each it says what the caller gets: nothing
//! yet, a finished record, the text of a paragraph that stands outside the
//! tables, the end, or a structural error.

use vstd::prelude::*;
use core::mem::swap;
use crate::text::{chars_of, is_word, trimmed};
use crate::parse::{ParseError, ParseStatus, Status, after_end_col, after_end_table,
    after_new_line, after_start_col, after_start_field, after_start_table, after_text,
    pending_pair, row_pair, status_name};
use crate::data::{Placed, Placement, Record, Row, empty_record, filled_with, normal_key,
    placement, slot_of};

verus! {

/// One event of the markup stream.
#[derive(Debug)]
pub enum MarkupEvent {
    /// An element opens, with its local name and its attributes as pairs of
    /// local name and value.
    ElementOpen { name: String, attributes: Vec<(String, String)> },
    /// An element closes.
    ElementClose { name: String },
    /// A chunk of text.
    Text(String),
    /// The stream has ended.
    EndOfStream,
}

/// The mathematical value of a `MarkupEvent`.
pub enum Event {
    ElementOpen(Seq<char>, Seq<(Seq<char>, Seq<char>)>),
    ElementClose(Seq<char>),
    Text(Seq<char>),
    EndOfStream,
}

/// The attributes as pairs of texts.
pub open spec fn attributes_view(a: Vec<(String, String)>) -> Seq<(Seq<char>, Seq<char>)> {
    a@.map_values(|p: (String, String)| (p.0@, p.1@))
}

impl View for MarkupEvent {
    type V = Event;

    open spec fn view(&self) -> Event {
        match self {
            MarkupEvent::ElementOpen { name, attributes } => Event::ElementOpen(
                name@,
                attributes_view(*attributes),
            ),
            MarkupEvent::ElementClose { name } => Event::ElementClose(name@),
            MarkupEvent::Text(t) => Event::Text(t@),
            MarkupEvent::EndOfStream => Event::EndOfStream,
        }
    }
}

/// The elements that the extractor tells apart.
#[derive(Clone, Copy, Debug, PartialEq, Eq, Structural)]
pub enum Element {
    Table,
    Row,
    Cell,
    Paragraph,
    TextRun,
    Other,
}

/// The element that a local name names.
pub open spec fn element_of(name: Seq<char>) -> Element {
    if name == "tbl"@ {
        Element::Table
    } else if name == "tr"@ {
        Element::Row
    } else if name == "tc"@ {
        Element::Cell
    } else if name == "p"@ {
        Element::Paragraph
    } else if name == "t"@ {
        Element::TextRun
    } else {
        Element::Other
    }
}

/// Whether the attributes ask to keep white space: the first attribute
/// named `space` has the value `preserve`.
pub open spec fn keeps_space(attrs: Seq<(Seq<char>, Seq<char>)>) -> bool
    decreases attrs.len(),
{
    if attrs.len() == 0 {
        false
    } else if attrs[0].0 == "space"@ {
        attrs[0].1 == "preserve"@
    } else {
        keeps_space(attrs.drop_first())
    }
}

/// What the caller gets for one event.
#[derive(Debug)]
pub enum Step {
    /// Nothing yet.
    Continue,
    /// A finished record.
    Record(Row),
    /// Text that stands outside the cells of a table.
    Paragraph(String),
    /// The stream has ended and every record was handed out.
    Finished,
    /// The event cannot be accepted where the stream stands.
    Failed(ParseError),
}

/// The mathematical value of a `Step`.
pub enum StepView {
    Continue,
    Record(Record),
    Paragraph(Seq<char>),
    Finished,
    Failed(Seq<char>),
}

impl View for Step {
    type V = StepView;

    open spec fn view(&self) -> StepView {
        match self {
            Step::Continue => StepView::Continue,
            Step::Record(r) => StepView::Record(r@),
            Step::Paragraph(t) => StepView::Paragraph(t@),
            Step::Finished => StepView::Finished,
            Step::Failed(e) => StepView::Failed(e.message@),
        }
    }
}

/// What the caller gets for one event, with what is worth a warning.
#[derive(Debug)]
pub struct Pulled {
    /// What the event gave.
    pub step: Step,
    /// The key of a row that closed without a second cell.
    pub missing_value: Option<String>,
    /// Key and value of a row whose key names no slot.
    pub unhandled: Option<(String, String)>,
}

/// The mathematical value of a `Pulled`.
pub struct Reaction {
    pub step: StepView,
    pub missing_value: Option<Seq<char>>,
    pub unhandled: Option<(Seq<char>, Seq<char>)>,
}

impl View for Pulled {
    type V = Reaction;

    open spec fn view(&self) -> Reaction {
        Reaction {
            step: self.step@,
            missing_value: match self.missing_value {
                Some(k) => Some(k@),
                None => None,
            },
            unhandled: match self.unhandled {
                Some(p) => Some((p.0@, p.1@)),
                None => None,
            },
        }
    }
}

/// The extractor: the state of the table stream and the record that is
/// being built.
#[derive(Debug)]
pub struct Extractor {
    status: ParseStatus,
    row: Row,
}

/// The mathematical value of an `Extractor`.
pub struct Machine {
    pub status: Status,
    pub row: Record,
}

impl View for Extractor {
    type V = Machine;

    closed spec fn view(&self) -> Machine {
        Machine { status: self.status@, row: self.row@ }
    }
}

/// The machine and the reaction after one event.
pub struct Turn {
    pub machine: Machine,
    pub reaction: Reaction,
}

/// The turn that leaves a machine and gives a reaction.
pub open spec fn made(machine: Machine, reaction: Reaction) -> Turn {
    Turn { machine, reaction }
}

/// A reaction without warnings.
pub open spec fn quiet(step: StepView) -> Reaction {
    Reaction { step, missing_value: None, unhandled: None }
}

/// Whether the stream has ended and every record was handed out.
pub open spec fn exhausted(m: Machine) -> bool {
    m.status == Status::Finished && m.row == empty_record()
}

/// The machine at the start of a document.
pub open spec fn started() -> Machine {
    Machine { status: Status::SearchingTable, row: empty_record() }
}

/// The machine without the record that it was building.
pub open spec fn emptied(m: Machine) -> Machine {
    Machine { status: m.status, row: empty_record() }
}

/// The machine after the last record.
pub open spec fn spent() -> Machine {
    Machine { status: Status::Finished, row: empty_record() }
}

/// A structural error ends the extraction: the record that was being built
/// is given up.
pub open spec fn failed(message: Seq<char>) -> Turn {
    Turn { machine: spent(), reaction: quiet(StepView::Failed(message)) }
}

/// The turn of an event that only moves the table stream: the next state
/// where the state accepts the event, else a structural error that names
/// the state.
pub open spec fn moved_turn(m: Machine, next: Option<Status>, what: Seq<char>) -> Turn {
    match next {
        Some(n) => Turn {
            machine: Machine { status: n, row: m.row },
            reaction: quiet(StepView::Continue),
        },
        None => failed(what + status_name(m.status)),
    }
}

/// The turn of a chunk of text: inside a cell it is added to the cell;
/// outside it is handed out as a paragraph.
pub open spec fn text_turn(m: Machine, text: Seq<char>) -> Turn {
    match after_text(m.status, text) {
        Some(n) => Turn {
            machine: Machine { status: n, row: m.row },
            reaction: quiet(StepView::Continue),
        },
        None => Turn { machine: m, reaction: quiet(StepView::Paragraph(text)) },
    }
}

/// The pair that is worth a warning: one that is not empty altogether.
pub open spec fn noted(key: Seq<char>, value: Seq<char>) -> Option<(Seq<char>, Seq<char>)> {
    if key.len() == 0 && value.len() == 0 {
        None
    } else {
        Some((key, value))
    }
}

/// The record that a pair starts after it met a filled slot.
pub open spec fn restarted(key: Seq<char>, value: Seq<char>) -> Record {
    match slot_of(normal_key(key)) {
        Some(slot) => filled_with(empty_record(), slot, trimmed(value)),
        None => empty_record(),
    }
}

/// The turn of a row that closes with its pair. The pair fills its slot;
/// where the slot is filled already, the record is handed out and the pair
/// starts the next one; a pair whose key names no slot is dropped with a
/// warning.
pub open spec fn row_turn(
    row: Record,
    key: Seq<char>,
    value: Seq<char>,
    missing_value: Option<Seq<char>>,
) -> Turn {
    match placement(row, key, value) {
        Placement::Stored(after) => Turn {
            machine: Machine { status: Status::SearchingField, row: after },
            reaction: Reaction { step: StepView::Continue, missing_value, unhandled: None },
        },
        Placement::Conflict => Turn {
            machine: Machine { status: Status::SearchingField, row: restarted(key, value) },
            reaction: Reaction { step: StepView::Record(row), missing_value, unhandled: None },
        },
        Placement::Unhandled => Turn {
            machine: Machine { status: Status::SearchingField, row },
            reaction: Reaction {
                step: StepView::Continue,
                missing_value,
                unhandled: noted(normal_key(key), trimmed(value)),
            },
        },
    }
}

/// The turn of the end of the stream while a pair was being built: the pair
/// is offered to the record as it stands, and the record is handed out.
/// Where the pair met a filled slot, it starts a last record, which the next
/// event hands out.
pub open spec fn last_pair_turn(row: Record, key: Seq<char>, value: Seq<char>) -> Turn {
    match placement(row, key, value) {
        Placement::Stored(after) => Turn {
            machine: spent(),
            reaction: quiet(StepView::Record(after)),
        },
        Placement::Conflict => Turn {
            machine: Machine { status: Status::Finished, row: restarted(key, value) },
            reaction: quiet(StepView::Record(row)),
        },
        Placement::Unhandled => Turn {
            machine: spent(),
            reaction: Reaction {
                step: StepView::Record(row),
                missing_value: None,
                unhandled: noted(normal_key(key), trimmed(value)),
            },
        },
    }
}

/// The turn of an event after the stream has ended: a record that is still
/// held is handed out; after it there is nothing more.
pub open spec fn drained(m: Machine) -> Turn {
    if m.row == empty_record() {
        Turn { machine: spent(), reaction: quiet(StepView::Finished) }
    } else {
        Turn { machine: spent(), reaction: quiet(StepView::Record(m.row)) }
    }
}

/// The machine and the reaction after one event.
pub open spec fn turn(m: Machine, e: Event) -> Turn {
    if m.status == Status::Finished {
        drained(m)
    } else {
        match e {
            Event::ElementOpen(name, attrs) => match element_of(name) {
                Element::Table => moved_turn(m, after_start_table(m.status), "invalid state "@),
                Element::Row => moved_turn(
                    m,
                    after_start_field(m.status),
                    "search field on state "@,
                ),
                Element::Cell => moved_turn(m, after_start_col(m.status), "start col on status "@),
                Element::Paragraph => match after_new_line(m.status) {
                    Some(n) => Turn {
                        machine: Machine { status: n, row: m.row },
                        reaction: quiet(StepView::Continue),
                    },
                    None => Turn { machine: m, reaction: quiet(StepView::Continue) },
                },
                Element::TextRun => if keeps_space(attrs) {
                    text_turn(m, " "@)
                } else {
                    Turn { machine: m, reaction: quiet(StepView::Continue) }
                },
                Element::Other => Turn { machine: m, reaction: quiet(StepView::Continue) },
            },
            Event::ElementClose(name) => match element_of(name) {
                Element::Cell => moved_turn(m, after_end_col(m.status), "end col on status "@),
                Element::Row => match row_pair(m.status) {
                    Some(pair) => row_turn(
                        m.row,
                        pair.0,
                        pair.1,
                        match m.status {
                            Status::SearchingCol2(k) => Some(k),
                            _ => None,
                        },
                    ),
                    None => failed("end field on status "@ + status_name(m.status)),
                },
                Element::Table => match after_end_table(m.status) {
                    Some(n) => Turn {
                        machine: Machine { status: n, row: empty_record() },
                        reaction: quiet(StepView::Record(m.row)),
                    },
                    None => failed("finish table on status "@ + status_name(m.status)),
                },
                _ => Turn { machine: m, reaction: quiet(StepView::Continue) },
            },
            Event::Text(t) => text_turn(m, t),
            Event::EndOfStream => match pending_pair(m.status) {
                Some(pair) => last_pair_turn(m.row, pair.0, pair.1),
                None => drained(m),
            },
        }
    }
}

/// Finds the element that a local name names.
pub fn find_element(name: &str) -> (r: Element)
    ensures
        r == element_of(name@),
{
    let n = chars_of(name);
    if is_word(&n, "tbl") {
        Element::Table
    } else if is_word(&n, "tr") {
        Element::Row
    } else if is_word(&n, "tc") {
        Element::Cell
    } else if is_word(&n, "p") {
        Element::Paragraph
    } else if is_word(&n, "t") {
        Element::TextRun
    } else {
        Element::Other
    }
}

/// Tests whether the attributes ask to keep white space.
pub fn asks_to_keep_space(attributes: &Vec<(String, String)>) -> (r: bool)
    ensures
        r == keeps_space(attributes_view(*attributes)),
{
    let ghost all = attributes_view(*attributes);
    let mut i: usize = 0;
    assert(all.skip(0) == all);
    while i < attributes.len()
        invariant
            i <= attributes.len(),
            all == attributes_view(*attributes),
            keeps_space(all) == keeps_space(all.skip(i as int)),
        decreases attributes.len() - i,
    {
        let name = chars_of(attributes[i].0.as_str());
        proof {
            assert(all.skip(i as int)[0] == all[i as int]);
            assert(all.skip(i as int).drop_first() == all.skip(i + 1));
        }
        if is_word(&name, "space") {
            let value = chars_of(attributes[i].1.as_str());
            return is_word(&value, "preserve");
        }
        i += 1;
    }
    false
}

/// A step without warnings.
fn plain(step: Step) -> (r: Pulled)
    ensures
        r@ == quiet(step@),
{
    Pulled { step, missing_value: None, unhandled: None }
}

impl Extractor {
    /// The extractor at the start of a document.
    pub fn new() -> (r: Extractor)
        ensures
            r@ == started(),
    {
        Extractor { status: ParseStatus::SearchingTable, row: Row::new() }
    }

    /// Whether the stream has ended and every record was handed out.
    pub fn is_exhausted(&self) -> (r: bool)
        ensures
            r == exhausted(self@),
    {
        self.status.is_finished() && self.row.is_empty()
    }

    /// Gives up the extraction, as after an error of the source of the
    /// events: the stream counts as ended and nothing more is handed out.
    pub fn abort(&mut self)
        ensures
            final(self)@ == spent(),
    {
        self.status = ParseStatus::Finished;
        self.row = Row::new();
    }

    /// Takes the record that is being built and leaves an empty one.
    fn take_row(&mut self) -> (r: Row)
        ensures
            r@ == old(self)@.row,
            final(self)@ == emptied(old(self)@),
    {
        let mut row = Row::new();
        swap(&mut row, &mut self.row);
        row
    }

    /// Ends the extraction after a structural error.
    fn fail(&mut self, e: ParseError) -> (r: Pulled)
        ensures
            final(self)@ == spent(),
            r@ == quiet(StepView::Failed(e.message@)),
    {
        self.abort();
        plain(Step::Failed(e))
    }

    /// Reacts to an event that only moves the table stream.
    fn settle(&mut self, moved: Result<(), ParseError>) -> (r: Pulled)
        ensures
            match moved {
                Ok(_) => final(self)@ == old(self)@ && r@ == quiet(StepView::Continue),
                Err(e) => final(self)@ == spent() && r@ == quiet(StepView::Failed(e.message@)),
            },
    {
        match moved {
            Ok(_) => plain(Step::Continue),
            Err(e) => self.fail(e),
        }
    }

    /// Hands out the record that is held after the end of the stream.
    fn drain(&mut self) -> (r: Pulled)
        requires
            old(self)@.status == Status::Finished || pending_pair(old(self)@.status) is None,
        ensures
            made(final(self)@, r@) == drained(old(self)@),
    {
        self.status = ParseStatus::Finished;
        if self.row.is_empty() {
            plain(Step::Finished)
        } else {
            let row = self.take_row();
            plain(Step::Record(row))
        }
    }

    /// Adds text to the cell that is open, or hands it out as a paragraph.
    fn add_text(&mut self, text: &str) -> (r: Pulled)
        ensures
            made(final(self)@, r@) == text_turn(old(self)@, text@),
    {
        match self.status.append_text(text) {
            Ok(_) => plain(Step::Continue),
            Err(_) => plain(Step::Paragraph(text.to_owned())),
        }
    }

    /// Offers the pair of a closing row to the record.
    fn close_row(&mut self, pair: (String, String), missing_value: Option<String>) -> (r: Pulled)
        requires
            old(self)@.status == Status::SearchingField,
        ensures
            made(final(self)@, r@) == row_turn(
                old(self)@.row,
                pair.0@,
                pair.1@,
                match missing_value {
                    Some(k) => Some(k@),
                    None => None,
                },
            ),
    {
        match self.row.place(pair) {
            Placed::Stored { .. } => Pulled { step: Step::Continue, missing_value, unhandled: None },
            Placed::Conflict { slot, key, value } => {
                let mut next = Row::seeded(slot, value.as_str());
                swap(&mut next, &mut self.row);
                Pulled { step: Step::Record(next), missing_value, unhandled: None }
            },
            Placed::Unhandled { key, value } => {
                let unhandled = if key.as_str().is_empty() && value.as_str().is_empty() {
                    None
                } else {
                    Some((key, value))
                };
                Pulled { step: Step::Continue, missing_value, unhandled }
            },
        }
    }

    /// Offers the pair that was being built when the stream ended.
    fn close_stream(&mut self, pair: (String, String)) -> (r: Pulled)
        requires
            old(self)@.status == Status::Finished,
        ensures
            made(final(self)@, r@) == last_pair_turn(
                old(self)@.row,
                pair.0@,
                pair.1@,
            ),
    {
        match self.row.place(pair) {
            Placed::Stored { .. } => {
                let row = self.take_row();
                plain(Step::Record(row))
            },
            Placed::Conflict { slot, key, value } => {
                let mut next = Row::seeded(slot, value.as_str());
                swap(&mut next, &mut self.row);
                plain(Step::Record(next))
            },
            Placed::Unhandled { key, value } => {
                let unhandled = if key.as_str().is_empty() && value.as_str().is_empty() {
                    None
                } else {
                    Some((key, value))
                };
                let row = self.take_row();
                Pulled { step: Step::Record(row), missing_value: None, unhandled }
            },
        }
    }

    /// Takes one event and says what the caller gets for it.
    pub fn feed(&mut self, event: &MarkupEvent) -> (r: Pulled)
        ensures
            made(final(self)@, r@) == turn(old(self)@, event@),
            exhausted(old(self)@) ==> exhausted(final(self)@) && r@ == quiet(StepView::Finished),
    {
        if self.status.is_finished() {
            return self.drain();
        }
        match event {
            MarkupEvent::ElementOpen { name, attributes } => match find_element(name.as_str()) {
                Element::Table => {
                    let moved = self.status.start_table();
                    self.settle(moved)
                },
                Element::Row => {
                    let moved = self.status.start_field();
                    self.settle(moved)
                },
                Element::Cell => {
                    let moved = self.status.start_col();
                    self.settle(moved)
                },
                Element::Paragraph => {
                    let _ = self.status.append_new_line();
                    plain(Step::Continue)
                },
                Element::TextRun => {
                    if asks_to_keep_space(attributes) {
                        self.add_text(" ")
                    } else {
                        plain(Step::Continue)
                    }
                },
                Element::Other => plain(Step::Continue),
            },
            MarkupEvent::ElementClose { name } => match find_element(name.as_str()) {
                Element::Cell => {
                    let moved = self.status.end_col();
                    self.settle(moved)
                },
                Element::Row => {
                    let missing_value = match &self.status {
                        ParseStatus::SearchingCol2(k) => Some(k.clone()),
                        _ => None,
                    };
                    match self.status.end_field() {
                        Ok(pair) => self.close_row(pair, missing_value),
                        Err(e) => self.fail(e),
                    }
                },
                Element::Table => match self.status.end_table() {
                    Ok(_) => {
                        let row = self.take_row();
                        plain(Step::Record(row))
                    },
                    Err(e) => self.fail(e),
                },
                _ => plain(Step::Continue),
            },
            MarkupEvent::Text(t) => self.add_text(t.as_str()),
            MarkupEvent::EndOfStream => match self.status.finish() {
                Ok(_) => self.drain(),
                Err(pair) => self.close_stream(pair),
            },
        }
    }
}

/// After the stream has ended and every record was handed out, no event
/// gives anything more, and the machine stays as it is.
pub proof fn lemma_exhausted_stays(m: Machine, e: Event)
    requires
        exhausted(m),
    ensures
        turn(m, e).machine == m,
        turn(m, e).reaction == quiet(StepView::Finished),
{
}

/// The machine after a run of events.
pub open spec fn after_all(m: Machine, events: Seq<Event>) -> Machine
    decreases events.len(),
{
    if events.len() == 0 {
        m
    } else {
        after_all(turn(m, events[0]).machine, events.drop_first())
    }
}

/// After the stream has ended and every record was handed out, no run of
/// events brings the machine back to work.
pub proof fn lemma_exhausted_forever(m: Machine, events: Seq<Event>)
    requires
        exhausted(m),
    ensures
        after_all(m, events) == m,
    decreases events.len(),
{
    if events.len() > 0 {
        lemma_exhausted_stays(m, events[0]);
        lemma_exhausted_forever(m, events.drop_first());
    }
}

/// After the stream has ended, the next event leaves nothing to hand out:
/// at most one record comes after the end.
pub proof fn lemma_finished_is_drained_once(m: Machine, e: Event)
    requires
        m.status == Status::Finished,
    ensures
        exhausted(turn(m, e).machine),
{
}

/// The machine in a row whose first cell has closed with the given key.
pub open spec fn lacking(key: Seq<char>, row: Record) -> Machine {
    Machine { status: Status::SearchingCol2(key), row }
}

/// A row that closes after its first cell, with no second cell, is no
/// error: its key is offered to the record with an empty value, and the key
/// is reported as lacking a value.
pub proof fn lemma_row_without_value(row: Record, key: Seq<char>, name: Seq<char>)
    requires
        element_of(name) == Element::Row,
    ensures
        turn(lacking(key, row), Event::ElementClose(name)) == row_turn(
            row,
            key,
            Seq::empty(),
            Some(key),
        ),
        !(turn(lacking(key, row), Event::ElementClose(name)).reaction.step is Failed),
{
}

/// A stream that ends while a pair is being built hands out a record, not
/// an error: the pair is offered to the record first.
pub proof fn lemma_end_inside_row(m: Machine)
    requires
        pending_pair(m.status) is Some,
    ensures
        turn(m, Event::EndOfStream) == last_pair_turn(
            m.row,
            pending_pair(m.status)->Some_0.0,
            pending_pair(m.status)->Some_0.1,
        ),
        (turn(m, Event::EndOfStream).reaction.step is Record),
        turn(m, Event::EndOfStream).machine.status == Status::Finished,
{
}

} // verus!
