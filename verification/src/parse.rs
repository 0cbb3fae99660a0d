//! The table stream state machine: it follows the opening and closing of
//! tables, rows and cells, gathers the text of the two cells of a row, and
//! hands out each row as a pair of key and value.

use vstd::prelude::*;
use vstd::string::StringExecFns;
use core::mem::swap;

verus! {

/// Where the machine stands in the stream. The states that are inside a row
/// carry the text gathered so far.
#[derive(Debug)]
pub enum ParseStatus {
    SearchingTable,
    SearchingField,
    SearchingCol1,
    Col1(String),
    SearchingCol2(String),
    Col2(String, String),
    Field(String, String),
    Finished,
}

/// The mathematical value of a `ParseStatus`.
pub enum Status {
    SearchingTable,
    SearchingField,
    SearchingCol1,
    Col1(Seq<char>),
    SearchingCol2(Seq<char>),
    Col2(Seq<char>, Seq<char>),
    Field(Seq<char>, Seq<char>),
    Finished,
}

impl View for ParseStatus {
    type V = Status;

    open spec fn view(&self) -> Status {
        match self {
            ParseStatus::SearchingTable => Status::SearchingTable,
            ParseStatus::SearchingField => Status::SearchingField,
            ParseStatus::SearchingCol1 => Status::SearchingCol1,
            ParseStatus::Col1(k) => Status::Col1(k@),
            ParseStatus::SearchingCol2(k) => Status::SearchingCol2(k@),
            ParseStatus::Col2(k, v) => Status::Col2(k@, v@),
            ParseStatus::Field(k, v) => Status::Field(k@, v@),
            ParseStatus::Finished => Status::Finished,
        }
    }
}

/// A structural error: an event arrived in a state that cannot accept it.
#[derive(Debug)]
pub struct ParseError {
    pub message: String,
}

impl ParseError {
    /// The text shown for the error.
    pub fn render(&self) -> (r: String)
        ensures
            r@ == "parse error: "@ + self.message@,
    {
        let mut r = String::from_str("parse error: ");
        r.append(self.message.as_str());
        r
    }
}

/// The name by which an error message identifies a state.
pub open spec fn status_name(s: Status) -> Seq<char> {
    match s {
        Status::SearchingTable => "SearchingTable"@,
        Status::SearchingField => "SearchingField"@,
        Status::SearchingCol1 => "SearchingCol1"@,
        Status::Col1(_) => "Col1"@,
        Status::SearchingCol2(_) => "SearchingCol2"@,
        Status::Col2(_, _) => "Col2"@,
        Status::Field(_, _) => "Field"@,
        Status::Finished => "Finished"@,
    }
}

/// The state after a table opens, where the state accepts that.
pub open spec fn after_start_table(s: Status) -> Option<Status> {
    match s {
        Status::SearchingTable => Some(Status::SearchingField),
        _ => None,
    }
}

/// The state after a row opens, where the state accepts that.
pub open spec fn after_start_field(s: Status) -> Option<Status> {
    match s {
        Status::SearchingField => Some(Status::SearchingCol1),
        _ => None,
    }
}

/// The state after a cell opens, where the state accepts that.
pub open spec fn after_start_col(s: Status) -> Option<Status> {
    match s {
        Status::SearchingCol1 => Some(Status::Col1(Seq::empty())),
        Status::SearchingCol2(k) => Some(Status::Col2(k, Seq::empty())),
        _ => None,
    }
}

/// The state after a cell closes, where the state accepts that.
pub open spec fn after_end_col(s: Status) -> Option<Status> {
    match s {
        Status::Col1(k) => Some(Status::SearchingCol2(k)),
        Status::Col2(k, v) => Some(Status::Field(k, v)),
        _ => None,
    }
}

/// The state after a table closes, where the state accepts that.
pub open spec fn after_end_table(s: Status) -> Option<Status> {
    match s {
        Status::SearchingField => Some(Status::SearchingTable),
        _ => None,
    }
}

/// The state after text arrives inside a cell; outside a cell there is none.
pub open spec fn after_text(s: Status, text: Seq<char>) -> Option<Status> {
    match s {
        Status::Col1(k) => Some(Status::Col1(k + text)),
        Status::Col2(k, v) => Some(Status::Col2(k, v + text)),
        _ => None,
    }
}

/// A paragraph break adds one space to a text that is not empty, and nothing
/// to an empty one.
pub open spec fn with_break(t: Seq<char>) -> Seq<char> {
    if t.len() == 0 {
        t
    } else {
        t.push(' ')
    }
}

/// The state after a paragraph break inside a cell; outside a cell there is
/// none.
pub open spec fn after_new_line(s: Status) -> Option<Status> {
    match s {
        Status::Col1(k) => Some(Status::Col1(with_break(k))),
        Status::Col2(k, v) => Some(Status::Col2(k, with_break(v))),
        _ => None,
    }
}

/// The pair that a closing row hands out: key and value of a complete row,
/// or the key and an empty value where the row had no second cell.
pub open spec fn row_pair(s: Status) -> Option<(Seq<char>, Seq<char>)> {
    match s {
        Status::SearchingCol2(k) => Some((k, Seq::empty())),
        Status::Field(k, v) => Some((k, v)),
        _ => None,
    }
}

/// The pair that is still being built in a state, if any.
pub open spec fn pending_pair(s: Status) -> Option<(Seq<char>, Seq<char>)> {
    match s {
        Status::Col1(k) => Some((k, Seq::empty())),
        Status::SearchingCol2(k) => Some((k, Seq::empty())),
        Status::Col2(k, v) => Some((k, v)),
        Status::Field(k, v) => Some((k, v)),
        _ => None,
    }
}

/// What a transition owes: on an accepted event the next state and `Ok`;
/// on a refused one the state as it was and an error whose message is
/// `what` followed by the name of the state.
pub open spec fn moved(
    before: Status,
    next: Option<Status>,
    after: Status,
    r: Result<(), ParseError>,
    what: Seq<char>,
) -> bool {
    match next {
        Some(n) => r is Ok && after == n,
        None => r is Err && after == before && r->Err_0.message@ == what + status_name(before),
    }
}

impl ParseStatus {
    /// The name of the state, as error messages give it.
    pub fn name(&self) -> (r: &'static str)
        ensures
            r@ == status_name(self@),
    {
        match self {
            ParseStatus::SearchingTable => "SearchingTable",
            ParseStatus::SearchingField => "SearchingField",
            ParseStatus::SearchingCol1 => "SearchingCol1",
            ParseStatus::Col1(_) => "Col1",
            ParseStatus::SearchingCol2(_) => "SearchingCol2",
            ParseStatus::Col2(_, _) => "Col2",
            ParseStatus::Field(_, _) => "Field",
            ParseStatus::Finished => "Finished",
        }
    }

    /// The error for an event that the state refuses.
    fn refused(&self, what: &str) -> (e: ParseError)
        ensures
            e.message@ == what@ + status_name(self@),
    {
        let mut message = String::from_str(what);
        message.append(self.name());
        ParseError { message }
    }

    /// A table opens.
    pub fn start_table(&mut self) -> (r: Result<(), ParseError>)
        ensures
            moved(old(self)@, after_start_table(old(self)@), final(self)@, r, "invalid state "@),
    {
        let mut cur = ParseStatus::SearchingField;
        swap(&mut cur, self);
        match cur {
            ParseStatus::SearchingTable => Ok(()),
            other => {
                let e = other.refused("invalid state ");
                *self = other;
                Err(e)
            },
        }
    }

    /// A row opens.
    pub fn start_field(&mut self) -> (r: Result<(), ParseError>)
        ensures
            moved(
                old(self)@,
                after_start_field(old(self)@),
                final(self)@,
                r,
                "search field on state "@,
            ),
    {
        let mut cur = ParseStatus::SearchingCol1;
        swap(&mut cur, self);
        match cur {
            ParseStatus::SearchingField => Ok(()),
            other => {
                let e = other.refused("search field on state ");
                *self = other;
                Err(e)
            },
        }
    }

    /// Text arrives: inside a cell it is added to the cell's text.
    pub fn append_text(&mut self, text: &str) -> (r: Result<(), ParseError>)
        ensures
            moved(
                old(self)@,
                after_text(old(self)@, text@),
                final(self)@,
                r,
                "append text on state "@,
            ),
    {
        let mut cur = ParseStatus::Finished;
        swap(&mut cur, self);
        match cur {
            ParseStatus::Col1(mut key) => {
                key.append(text);
                *self = ParseStatus::Col1(key);
                Ok(())
            },
            ParseStatus::Col2(key, mut value) => {
                value.append(text);
                *self = ParseStatus::Col2(key, value);
                Ok(())
            },
            other => {
                let e = other.refused("append text on state ");
                *self = other;
                Err(e)
            },
        }
    }

    /// A paragraph breaks: inside a cell that already holds text it becomes
    /// one space.
    pub fn append_new_line(&mut self) -> (r: Result<(), ParseError>)
        ensures
            moved(
                old(self)@,
                after_new_line(old(self)@),
                final(self)@,
                r,
                "append text on state "@,
            ),
    {
        let mut cur = ParseStatus::Finished;
        swap(&mut cur, self);
        match cur {
            ParseStatus::Col1(mut key) => {
                if !key.as_str().is_empty() {
                    key.push(' ');
                }
                *self = ParseStatus::Col1(key);
                Ok(())
            },
            ParseStatus::Col2(key, mut value) => {
                if !value.as_str().is_empty() {
                    value.push(' ');
                }
                *self = ParseStatus::Col2(key, value);
                Ok(())
            },
            other => {
                let e = other.refused("append text on state ");
                *self = other;
                Err(e)
            },
        }
    }

    /// A cell opens.
    pub fn start_col(&mut self) -> (r: Result<(), ParseError>)
        ensures
            moved(
                old(self)@,
                after_start_col(old(self)@),
                final(self)@,
                r,
                "start col on status "@,
            ),
    {
        let mut cur = ParseStatus::Finished;
        swap(&mut cur, self);
        match cur {
            ParseStatus::SearchingCol1 => {
                *self = ParseStatus::Col1(String::new());
                Ok(())
            },
            ParseStatus::SearchingCol2(key) => {
                *self = ParseStatus::Col2(key, String::new());
                Ok(())
            },
            other => {
                let e = other.refused("start col on status ");
                *self = other;
                Err(e)
            },
        }
    }

    /// A cell closes.
    pub fn end_col(&mut self) -> (r: Result<(), ParseError>)
        ensures
            moved(
                old(self)@,
                after_end_col(old(self)@),
                final(self)@,
                r,
                "end col on status "@,
            ),
    {
        let mut cur = ParseStatus::Finished;
        swap(&mut cur, self);
        match cur {
            ParseStatus::Col1(key) => {
                *self = ParseStatus::SearchingCol2(key);
                Ok(())
            },
            ParseStatus::Col2(key, value) => {
                *self = ParseStatus::Field(key, value);
                Ok(())
            },
            other => {
                let e = other.refused("end col on status ");
                *self = other;
                Err(e)
            },
        }
    }

    /// Whether a row that closes now has a key and no second cell.
    pub fn lacks_value(&self) -> (r: bool)
        ensures
            r == (self@ is SearchingCol2),
    {
        match self {
            ParseStatus::SearchingCol2(_) => true,
            _ => false,
        }
    }

    /// A row closes and hands out its pair. A row whose second cell never
    /// came hands out its key with an empty value.
    pub fn end_field(&mut self) -> (r: Result<(String, String), ParseError>)
        ensures
            match row_pair(old(self)@) {
                Some(pair) => r is Ok && (r->Ok_0.0@, r->Ok_0.1@) == pair && final(self)@
                    == Status::SearchingField,
                None => r is Err && final(self)@ == old(self)@ && r->Err_0.message@
                    == "end field on status "@ + status_name(old(self)@),
            },
    {
        let mut cur = ParseStatus::SearchingField;
        swap(&mut cur, self);
        match cur {
            ParseStatus::SearchingCol2(key) => Ok((key, String::new())),
            ParseStatus::Field(key, value) => Ok((key, value)),
            other => {
                let e = other.refused("end field on status ");
                *self = other;
                Err(e)
            },
        }
    }

    /// A table closes.
    pub fn end_table(&mut self) -> (r: Result<(), ParseError>)
        ensures
            moved(
                old(self)@,
                after_end_table(old(self)@),
                final(self)@,
                r,
                "finish table on status "@,
            ),
    {
        let mut cur = ParseStatus::SearchingTable;
        swap(&mut cur, self);
        match cur {
            ParseStatus::SearchingField => Ok(()),
            other => {
                let e = other.refused("finish table on status ");
                *self = other;
                Err(e)
            },
        }
    }

    /// The stream ends. The machine is finished from here on; a pair that was
    /// still being built comes back as the error value.
    pub fn finish(&mut self) -> (r: Result<(), (String, String)>)
        ensures
            final(self)@ == Status::Finished,
            match pending_pair(old(self)@) {
                Some(pair) => r is Err && (r->Err_0.0@, r->Err_0.1@) == pair,
                None => r is Ok,
            },
    {
        let mut cur = ParseStatus::Finished;
        swap(&mut cur, self);
        match cur {
            ParseStatus::Col1(k) => Err((k, String::new())),
            ParseStatus::SearchingCol2(k) => Err((k, String::new())),
            ParseStatus::Col2(k, v) => Err((k, v)),
            ParseStatus::Field(k, v) => Err((k, v)),
            _ => Ok(()),
        }
    }

    /// Whether the stream has ended.
    pub fn is_finished(&self) -> (r: bool)
        ensures
            r == (self@ == Status::Finished),
    {
        match self {
            ParseStatus::Finished => true,
            _ => false,
        }
    }
}

} // verus!
