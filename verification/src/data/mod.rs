//! The typed values of a catalogue record and the record itself.

pub mod range;
pub mod index;
pub mod field;
pub mod page;
pub mod number_volume;
pub mod ata;
pub mod operators;
pub mod document_type;

use vstd::prelude::*;
use vstd::string::StringExecFns;
use crate::text::{chars_of, contains_word, dollars_escaped, escape_dollars, has_infix,
    has_prefix, lowercased, starts_with_word, trim, trimmed};
use self::ata::{Ata, Citation};
use self::document_type::{DocumentTypes, Kind, fields_of_text, kinds_text};
use self::field::{Field, FieldText, FieldValue, classified, field_shown, index_key};
use self::index::{Line, LineText, indexed, lines_of};
use self::number_volume::{Issue, NumberVolume};
use self::page::Page;
use self::range::{Range, Span};

verus! {

/// One entry of the catalogue. Each of its slots is empty until the source
/// fills it, and is filled once.
#[derive(Debug, PartialEq, Eq)]
pub struct Row {
    /// The year of the periodical.
    pub year: Option<Field<Range>>,
    /// Its issue number and volume.
    pub number_volume: Option<Field<NumberVolume>>,
    /// The minutes of the session that mention the document.
    pub ata: Option<Field<Ata>>,
    /// The page of the entry.
    pub page: Option<Field<Page>>,
    /// The kinds of the document.
    pub kind: Option<DocumentTypes>,
    /// Its full title.
    pub title: Option<Field<String>>,
    /// Who gave it.
    pub doner: Option<Field<String>>,
    /// The time that it covers.
    pub time: Option<Field<String>>,
}

/// The mathematical value of a `Row`.
pub struct Record {
    pub year: Option<FieldText<Span>>,
    pub number_volume: Option<FieldText<Issue>>,
    pub ata: Option<FieldText<Citation>>,
    pub page: Option<FieldText<Span>>,
    pub kind: Option<Seq<FieldText<Kind>>>,
    pub title: Option<FieldText<Seq<char>>>,
    pub doner: Option<FieldText<Seq<char>>>,
    pub time: Option<FieldText<Seq<char>>>,
}

/// The slots of a record.
#[derive(Clone, Copy, Debug, PartialEq, Eq, Structural)]
pub enum Slot {
    Year,
    NumberVolume,
    Ata,
    Page,
    Kind,
    Title,
    Doner,
    Time,
}

/// The value of an optional field.
pub open spec fn slot_view<T: View>(f: Option<Field<T>>) -> Option<FieldText<T::V>> {
    match f {
        Some(field) => Some(field@),
        None => None,
    }
}

impl View for Row {
    type V = Record;

    open spec fn view(&self) -> Record {
        Record {
            year: slot_view(self.year),
            number_volume: slot_view(self.number_volume),
            ata: slot_view(self.ata),
            page: slot_view(self.page),
            kind: match self.kind {
                Some(k) => Some(k@),
                None => None,
            },
            title: slot_view(self.title),
            doner: slot_view(self.doner),
            time: slot_view(self.time),
        }
    }
}

/// The record with no slot filled.
pub open spec fn empty_record() -> Record {
    Record {
        year: None,
        number_volume: None,
        ata: None,
        page: None,
        kind: None,
        title: None,
        doner: None,
        time: None,
    }
}

/// The key as it is matched: without the white space around it, in small
/// letters.
pub open spec fn normal_key(key: Seq<char>) -> Seq<char> {
    lowercased(trimmed(key))
}

/// The slot that a normalised key names, by the word that it starts with or
/// holds. The first rule that fits decides.
pub open spec fn slot_of(key: Seq<char>) -> Option<Slot> {
    if has_prefix(key, "ano"@) {
        Some(Slot::Year)
    } else if has_infix(key, "ata"@) {
        Some(Slot::Ata)
    } else if has_prefix(key, "numero"@) || has_prefix(key, "número"@) {
        Some(Slot::NumberVolume)
    } else if has_prefix(key, "página"@) || has_prefix(key, "pagina"@) {
        Some(Slot::Page)
    } else if has_prefix(key, "tipo"@) {
        Some(Slot::Kind)
    } else if has_prefix(key, "título"@) || has_prefix(key, "titulo"@) {
        Some(Slot::Title)
    } else if has_prefix(key, "quem"@) {
        Some(Slot::Doner)
    } else if has_prefix(key, "qual"@) {
        Some(Slot::Time)
    } else {
        None
    }
}

/// Whether a slot of a record is filled.
pub open spec fn is_filled(r: Record, slot: Slot) -> bool {
    match slot {
        Slot::Year => r.year is Some,
        Slot::NumberVolume => r.number_volume is Some,
        Slot::Ata => r.ata is Some,
        Slot::Page => r.page is Some,
        Slot::Kind => r.kind is Some,
        Slot::Title => r.title is Some,
        Slot::Doner => r.doner is Some,
        Slot::Time => r.time is Some,
    }
}

/// The record after a value is read into a slot. The kinds of a document are
/// read from the value in small letters.
pub open spec fn filled_with(r: Record, slot: Slot, value: Seq<char>) -> Record {
    match slot {
        Slot::Year => Record { year: Some(classified::<Range>(value)), ..r },
        Slot::NumberVolume => Record {
            number_volume: Some(classified::<NumberVolume>(value)),
            ..r
        },
        Slot::Ata => Record { ata: Some(classified::<Ata>(value)), ..r },
        Slot::Page => Record { page: Some(classified::<Page>(value)), ..r },
        Slot::Kind => Record { kind: Some(fields_of_text(lowercased(value))), ..r },
        Slot::Title => Record { title: Some(classified::<String>(value)), ..r },
        Slot::Doner => Record { doner: Some(classified::<String>(value)), ..r },
        Slot::Time => Record { time: Some(classified::<String>(value)), ..r },
    }
}

/// What becomes of a pair of key and value that is offered to a record.
pub enum Placement {
    /// The pair filled its slot: the record after it.
    Stored(Record),
    /// The slot was filled already: the record is as it was.
    Conflict,
    /// The key names no slot: the record is as it was.
    Unhandled,
}

/// What becomes of a pair that is offered to a record, key and value taken
/// as they are.
pub open spec fn placement_as_is(r: Record, key: Seq<char>, value: Seq<char>) -> Placement {
    match slot_of(key) {
        Some(slot) => if is_filled(r, slot) {
            Placement::Conflict
        } else {
            Placement::Stored(filled_with(r, slot, value))
        },
        None => Placement::Unhandled,
    }
}

/// What becomes of a pair that is offered to a record. Key and value count
/// without the white space around them, the key in small letters.
pub open spec fn placement(r: Record, key: Seq<char>, value: Seq<char>) -> Placement {
    placement_as_is(r, normal_key(key), trimmed(value))
}

/// What became of a pair that was offered to a record, with key and value
/// as they were matched.
#[derive(Debug, PartialEq, Eq)]
pub enum Placed {
    /// The value was read into the slot.
    Stored { slot: Slot, key: String, value: String },
    /// The slot was filled already.
    Conflict { slot: Slot, key: String, value: String },
    /// The key names no slot.
    Unhandled { key: String, value: String },
}

impl Placed {
    /// The key, without the white space around it and in small letters.
    pub open spec fn key(&self) -> String {
        match self {
            Placed::Stored { key, .. } => *key,
            Placed::Conflict { key, .. } => *key,
            Placed::Unhandled { key, .. } => *key,
        }
    }

    /// The value, without the white space around it.
    pub open spec fn value(&self) -> String {
        match self {
            Placed::Stored { value, .. } => *value,
            Placed::Conflict { value, .. } => *value,
            Placed::Unhandled { value, .. } => *value,
        }
    }

    /// The slot that the key names.
    pub open spec fn slot(&self) -> Option<Slot> {
        match self {
            Placed::Stored { slot, .. } => Some(*slot),
            Placed::Conflict { slot, .. } => Some(*slot),
            Placed::Unhandled { .. } => None,
        }
    }
}

/// Finds the slot that a normalised key names.
pub fn find_slot(key: &str) -> (r: Option<Slot>)
    ensures
        r == slot_of(key@),
{
    let k = chars_of(key);
    if starts_with_word(&k, "ano") {
        Some(Slot::Year)
    } else if contains_word(&k, "ata") {
        Some(Slot::Ata)
    } else if starts_with_word(&k, "numero") || starts_with_word(&k, "número") {
        Some(Slot::NumberVolume)
    } else if starts_with_word(&k, "página") || starts_with_word(&k, "pagina") {
        Some(Slot::Page)
    } else if starts_with_word(&k, "tipo") {
        Some(Slot::Kind)
    } else if starts_with_word(&k, "título") || starts_with_word(&k, "titulo") {
        Some(Slot::Title)
    } else if starts_with_word(&k, "quem") {
        Some(Slot::Doner)
    } else if starts_with_word(&k, "qual") {
        Some(Slot::Time)
    } else {
        None
    }
}

/// The first lines of the table that shows a record.
pub const TABLE_HEAD: &'static str =
    "\\begin{tabularx}{\\linewidth}{| p{.4545\\linewidth} | p{.4625\\linewidth} |}\n    \\hline\n";

/// The last line of the table that shows a record.
pub const TABLE_FOOT: &'static str = "\\end{tabularx}";

/// What stands before the label of a line of the table.
pub const LINE_START: &'static str = "    \\hfill ";

/// What stands between the label and the text of a line of the table.
pub const LINE_MIDDLE: &'static str = " & ";

/// What ends a line of the table.
pub const LINE_END: &'static str = " \\\\\n    \\hline\n";

/// The line of the table for one slot: nothing for a slot that is not
/// filled, else the label and the text of the slot.
pub open spec fn slot_line(label: Seq<char>, text: Option<Seq<char>>) -> Seq<char> {
    match text {
        Some(t) => LINE_START@ + label + LINE_MIDDLE@ + t + LINE_END@,
        None => Seq::empty(),
    }
}

/// The text of a slot that holds a field.
pub open spec fn slot_shown<T: FieldValue>(f: Option<FieldText<T::V>>) -> Option<Seq<char>> {
    match f {
        Some(field) => Some(field_shown::<T>(field)),
        None => None,
    }
}

/// The text of the slot of the kinds.
pub open spec fn kinds_shown(table: Seq<LineText>, k: Option<Seq<FieldText<Kind>>>) -> Option<
    Seq<char>,
> {
    match k {
        Some(fields) => Some(kinds_text(table, fields)),
        None => None,
    }
}

/// The text of the slot of the title: a dollar sign has a backslash before
/// it.
pub open spec fn title_shown(f: Option<FieldText<Seq<char>>>) -> Option<Seq<char>> {
    match f {
        Some(field) => Some(dollars_escaped(field_shown::<String>(field))),
        None => None,
    }
}

/// The text of the slot of the giver: the field, then its entry in the
/// index of names.
pub open spec fn doner_shown(table: Seq<LineText>, f: Option<FieldText<Seq<char>>>) -> Option<
    Seq<char>,
> {
    match f {
        Some(field) => Some(
            field_shown::<String>(field) + indexed(table, index_key(field), table.len()),
        ),
        None => None,
    }
}

/// The table that shows a record: one line for each slot that is filled.
pub open spec fn row_text(table: Seq<LineText>, r: Record) -> Seq<char> {
    TABLE_HEAD@ + slot_line("Ano da revista"@, slot_shown::<Range>(r.year)) + slot_line(
        "Número/volume da revista"@,
        slot_shown::<NumberVolume>(r.number_volume),
    ) + slot_line("Nº e data da ata de sessão"@, slot_shown::<Ata>(r.ata)) + slot_line(
        "Página(s)"@,
        slot_shown::<Page>(r.page),
    ) + slot_line("Tipo de documento"@, kinds_shown(table, r.kind)) + slot_line(
        "Título completo do documento"@,
        title_shown(r.title),
    ) + slot_line("Quem doou?"@, doner_shown(table, r.doner)) + slot_line(
        "Temporalidade do documento"@,
        slot_shown::<String>(r.time),
    ) + TABLE_FOOT@
}

/// The text of an optional string.
pub open spec fn text_view(t: Option<String>) -> Option<Seq<char>> {
    match t {
        Some(s) => Some(s@),
        None => None,
    }
}

/// Adds the line of one slot to a table.
fn push_line(out: &mut String, label: &str, text: &Option<String>)
    ensures
        final(out)@ == old(out)@ + slot_line(label@, text_view(*text)),
{
    match text {
        Some(t) => {
            out.append(LINE_START);
            out.append(label);
            out.append(LINE_MIDDLE);
            out.append(t.as_str());
            out.append(LINE_END);
            assert(out@ == old(out)@ + (LINE_START@ + label@ + LINE_MIDDLE@ + t@ + LINE_END@));
        },
        None => {
            assert(out@ == old(out)@ + Seq::<char>::empty());
        },
    }
}

/// The text of a slot that holds a field.
fn show<T: FieldValue>(f: &Option<Field<T>>) -> (r: Option<String>)
    ensures
        text_view(r) == slot_shown::<T>(slot_view(*f)),
{
    match f {
        Some(field) => Some(field.render()),
        None => None,
    }
}

impl Row {
    /// Writes the table that shows the record. The names of givers and of
    /// kinds of documents are entered in the index as the table of names
    /// says.
    pub fn render(&self, table: &Vec<Line>) -> (r: String)
        ensures
            r@ == row_text(lines_of(*table), self@),
    {
        let mut out = String::from_str(TABLE_HEAD);
        push_line(&mut out, "Ano da revista", &show(&self.year));
        push_line(&mut out, "Número/volume da revista", &show(&self.number_volume));
        push_line(&mut out, "Nº e data da ata de sessão", &show(&self.ata));
        push_line(&mut out, "Página(s)", &show(&self.page));
        let kinds = match &self.kind {
            Some(k) => Some(k.render(table)),
            None => None,
        };
        push_line(&mut out, "Tipo de documento", &kinds);
        let title = match &self.title {
            Some(t) => Some(escape_dollars(t.render().as_str())),
            None => None,
        };
        push_line(&mut out, "Título completo do documento", &title);
        let doner = match &self.doner {
            Some(d) => {
                let mut text = d.render();
                text.append(d.index().render(table).as_str());
                Some(text)
            },
            None => None,
        };
        push_line(&mut out, "Quem doou?", &doner);
        push_line(&mut out, "Temporalidade do documento", &show(&self.time));
        out.append(TABLE_FOOT);
        out
    }

    /// The record with no slot filled.
    pub fn new() -> (r: Row)
        ensures
            r@ == empty_record(),
    {
        Row {
            year: None,
            number_volume: None,
            ata: None,
            page: None,
            kind: None,
            title: None,
            doner: None,
            time: None,
        }
    }

    /// Whether a slot is filled.
    pub fn has(&self, slot: Slot) -> (r: bool)
        ensures
            r == is_filled(self@, slot),
    {
        match slot {
            Slot::Year => self.year.is_some(),
            Slot::NumberVolume => self.number_volume.is_some(),
            Slot::Ata => self.ata.is_some(),
            Slot::Page => self.page.is_some(),
            Slot::Kind => self.kind.is_some(),
            Slot::Title => self.title.is_some(),
            Slot::Doner => self.doner.is_some(),
            Slot::Time => self.time.is_some(),
        }
    }

    /// Whether no slot is filled.
    pub fn is_empty(&self) -> (r: bool)
        ensures
            r == (self@ == empty_record()),
    {
        self.year.is_none() && self.number_volume.is_none() && self.ata.is_none()
            && self.page.is_none() && self.kind.is_none() && self.title.is_none()
            && self.doner.is_none() && self.time.is_none()
    }

    /// Reads a value into an empty slot.
    fn fill(&mut self, slot: Slot, value: &str)
        requires
            !is_filled(old(self)@, slot),
        ensures
            final(self)@ == filled_with(old(self)@, slot, value@),
    {
        match slot {
            Slot::Year => {
                self.year = Some(Field::<Range>::parse(value));
            },
            Slot::NumberVolume => {
                self.number_volume = Some(Field::<NumberVolume>::parse(value));
            },
            Slot::Ata => {
                self.ata = Some(Field::<Ata>::parse(value));
            },
            Slot::Page => {
                self.page = Some(Field::<Page>::parse(value));
            },
            Slot::Kind => {
                let lower = value.to_lowercase();
                self.kind = Some(DocumentTypes::parse(lower.as_str()));
            },
            Slot::Title => {
                self.title = Some(Field::<String>::parse(value));
            },
            Slot::Doner => {
                self.doner = Some(Field::<String>::parse(value));
            },
            Slot::Time => {
                self.time = Some(Field::<String>::parse(value));
            },
        }
    }

    /// The record that holds one value and nothing else.
    pub fn seeded(slot: Slot, value: &str) -> (r: Row)
        ensures
            r@ == filled_with(empty_record(), slot, value@),
    {
        let mut r = Row::new();
        r.fill(slot, value);
        r
    }

    /// Offers a pair of key and value to the record and says what became of
    /// it. The key is matched without the white space around it and in small
    /// letters. Where it names an empty slot, the value is read into the
    /// slot. Where the slot is filled already, or the key names no slot, the
    /// record stays as it is, and key and value come back as they were
    /// matched.
    pub fn place(&mut self, field: (String, String)) -> (r: Placed)
        ensures
            match placement(old(self)@, field.0@, field.1@) {
                Placement::Stored(_) => r is Stored,
                Placement::Conflict => r is Conflict,
                Placement::Unhandled => r is Unhandled,
            },
            final(self)@ == (match placement(old(self)@, field.0@, field.1@) {
                Placement::Stored(after) => after,
                _ => old(self)@,
            }),
            r.key()@ == normal_key(field.0@),
            r.value()@ == trimmed(field.1@),
            r.slot() == slot_of(normal_key(field.0@)),
    {
        let (raw_key, raw_value) = field;
        let key = trim(raw_key.as_str()).to_lowercase();
        let value = trim(raw_value.as_str()).to_owned();
        self.place_as_is(key, value)
    }

    /// Offers a pair of key and value to the record, both taken as they are:
    /// the key is matched as it stands, and the value is read as it stands.
    pub fn place_as_is(&mut self, key: String, value: String) -> (r: Placed)
        ensures
            match placement_as_is(old(self)@, key@, value@) {
                Placement::Stored(_) => r is Stored,
                Placement::Conflict => r is Conflict,
                Placement::Unhandled => r is Unhandled,
            },
            final(self)@ == (match placement_as_is(old(self)@, key@, value@) {
                Placement::Stored(after) => after,
                _ => old(self)@,
            }),
            r.key() == key,
            r.value() == value,
            r.slot() == slot_of(key@),
    {
        match find_slot(key.as_str()) {
            Some(slot) => {
                if self.has(slot) {
                    Placed::Conflict { slot, key, value }
                } else {
                    self.fill(slot, value.as_str());
                    Placed::Stored { slot, key, value }
                }
            },
            None => Placed::Unhandled { key, value },
        }
    }

    /// Offers a pair of key and value to the record. Where the key names a
    /// slot that is filled already, the record stays as it is and the pair
    /// comes back as the error, key and value without the white space around
    /// them, the key in small letters. A key that names no slot changes
    /// nothing.
    pub fn set_field(&mut self, field: (String, String)) -> (r: Result<(), (String, String)>)
        ensures
            match placement(old(self)@, field.0@, field.1@) {
                Placement::Stored(after) => r is Ok && final(self)@ == after,
                Placement::Conflict => r is Err && final(self)@ == old(self)@ && r->Err_0.0@
                    == normal_key(field.0@) && r->Err_0.1@ == trimmed(field.1@),
                Placement::Unhandled => r is Ok && final(self)@ == old(self)@,
            },
    {
        match self.place(field) {
            Placed::Conflict { slot, key, value } => Err((key, value)),
            _ => Ok(()),
        }
    }
}

} // verus!
