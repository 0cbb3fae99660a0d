//! A field of a record: absent, present with a typed value, or present with
//! a text that does not write a value of the type.

use vstd::prelude::*;
use core::mem::swap;
use crate::text::{Order, all_space, chars_of, compare_text, is_word, lemma_trimmed_frame,
    text_order, trim, trimmed};
use crate::data::index::Index;

verus! {

/// A type of values that a field can hold: it is read from a text, written
/// as a text, and ordered.
pub trait FieldValue: Sized + View {
    /// The value that a text writes, if it writes one.
    spec fn read(s: Seq<char>) -> Option<Self::V>;

    /// The text that writes a value.
    spec fn shown(v: Self::V) -> Seq<char>;

    /// The order of two values.
    spec fn order(a: Self::V, b: Self::V) -> Order;

    /// Reads a value from a text.
    fn parse_value(s: &str) -> (r: Option<Self>)
        ensures
            match r {
                Some(v) => Self::read(s@) == Some(v@),
                None => Self::read(s@) is None,
            },
    ;

    /// Writes the value as a text.
    fn render_value(&self) -> (r: String)
        ensures
            r@ == Self::shown(self@),
    ;

    /// Compares two values.
    fn compare_value(&self, other: &Self) -> (r: Order)
        ensures
            r == Self::order(self@, other@),
    ;
}

/// A field of a record.
#[derive(Debug, PartialEq, Eq, Hash)]
pub enum Field<T> {
    /// The source holds a placeholder in place of a value.
    Absent,
    /// The source holds a value of the type.
    Present(T),
    /// The source holds a text that writes no value of the type.
    NotStandard(String),
}

/// The mathematical value of a `Field`.
pub enum FieldText<V> {
    Absent,
    Present(V),
    NotStandard(Seq<char>),
}

impl<T: View> View for Field<T> {
    type V = FieldText<T::V>;

    open spec fn view(&self) -> FieldText<T::V> {
        match self {
            Field::Absent => FieldText::Absent,
            Field::Present(v) => FieldText::Present(v@),
            Field::NotStandard(s) => FieldText::NotStandard(s@),
        }
    }
}

/// Whether a text is one of the placeholders that stand for an absent value.
pub open spec fn is_placeholder(t: Seq<char>) -> bool {
    ||| t == "-"@
    ||| t == "(?)"@
    ||| t == "?"@
    ||| t == "não mencionado"@
    ||| t == "Não mencionado"@
    ||| t == "Não mencionada"@
    ||| t == ""@
    ||| t == "a conferir"@
    ||| t == "A conferir"@
    ||| t == "x"@
    ||| t == "X"@
    ||| t == "- -"@
}

/// The field that a text stands for, the text taken as it is: a placeholder
/// is an absent value; a text that writes a value of the type is that value;
/// any other text is kept.
pub open spec fn classified_as_is<T: FieldValue>(t: Seq<char>) -> FieldText<T::V> {
    if is_placeholder(t) {
        FieldText::Absent
    } else {
        match T::read(t) {
            Some(v) => FieldText::Present(v),
            None => FieldText::NotStandard(t),
        }
    }
}

/// The field that a text stands for. Only the text without the white space
/// around it counts.
pub open spec fn classified<T: FieldValue>(s: Seq<char>) -> FieldText<T::V> {
    classified_as_is::<T>(trimmed(s))
}

/// The text by which a field is compared where typed values cannot be.
pub open spec fn field_shown<T: FieldValue>(f: FieldText<T::V>) -> Seq<char> {
    match f {
        FieldText::Absent => "---"@,
        FieldText::Present(v) => T::shown(v),
        FieldText::NotStandard(s) => s,
    }
}

/// The order of two fields: an absent one comes before every other; two
/// present values are ordered as the type orders them; otherwise the texts
/// decide.
pub open spec fn field_order<T: FieldValue>(a: FieldText<T::V>, b: FieldText<T::V>) -> Order {
    match (a, b) {
        (FieldText::Absent, FieldText::Absent) => Order::Equal,
        (FieldText::Absent, _) => Order::Less,
        (_, FieldText::Absent) => Order::Greater,
        (FieldText::Present(x), FieldText::Present(y)) => T::order(x, y),
        _ => text_order(field_shown::<T>(a), field_shown::<T>(b)),
    }
}

/// No placeholder begins or ends with white space.
pub proof fn lemma_placeholder_edges(p: Seq<char>)
    requires
        is_placeholder(p),
    ensures
        p.len() > 0 ==> '!' <= p[0] <= '~' && '!' <= p.last() <= '~',
{
    reveal_strlit("-");
    reveal_strlit("(?)");
    reveal_strlit("?");
    reveal_strlit("não mencionado");
    reveal_strlit("Não mencionado");
    reveal_strlit("Não mencionada");
    reveal_strlit("");
    reveal_strlit("a conferir");
    reveal_strlit("A conferir");
    reveal_strlit("x");
    reveal_strlit("X");
    reveal_strlit("- -");
}

/// A placeholder is an absent field whatever white space stands before and
/// after it, and of whatever type the field is.
pub proof fn lemma_placeholder_is_absent<T: FieldValue>(
    before: Seq<char>,
    p: Seq<char>,
    after: Seq<char>,
)
    requires
        is_placeholder(p),
        all_space(before),
        all_space(after),
    ensures
        classified::<T>(before + p + after) == FieldText::<T::V>::Absent,
{
    lemma_placeholder_edges(p);
    lemma_trimmed_frame(before, p, after);
}

/// What a field is depends on nothing but the text without the white space
/// around it.
pub proof fn lemma_classified_by_trimmed_text<T: FieldValue>(a: Seq<char>, b: Seq<char>)
    requires
        trimmed(a) == trimmed(b),
    ensures
        classified::<T>(a) == classified::<T>(b),
{
}

/// Tests whether a text is one of the placeholders.
pub fn placeholder(t: &Vec<char>) -> (r: bool)
    ensures
        r == is_placeholder(t@),
{
    is_word(t, "-") || is_word(t, "(?)") || is_word(t, "?") || is_word(t, "não mencionado")
        || is_word(t, "Não mencionado") || is_word(t, "Não mencionada") || is_word(t, "")
        || is_word(t, "a conferir") || is_word(t, "A conferir") || is_word(t, "x") || is_word(
        t,
        "X",
    ) || is_word(t, "- -")
}

impl<T: FieldValue> Field<T> {
    /// Classifies a text. This never fails: a text that writes no value of
    /// the type is kept as a non-standard field.
    pub fn parse(s: &str) -> (r: Field<T>)
        ensures
            r@ == classified::<T>(s@),
    {
        Field::classify(trim(s))
    }

    /// Classifies a text as it is, with whatever white space stands around
    /// it.
    pub fn classify(t: &str) -> (r: Field<T>)
        ensures
            r@ == classified_as_is::<T>(t@),
    {
        let chars = chars_of(t);
        if placeholder(&chars) {
            Field::Absent
        } else {
            match T::parse_value(t) {
                Some(v) => Field::Present(v),
                None => Field::NotStandard(t.to_owned()),
            }
        }
    }

    /// Writes the field: three hyphens for an absent one, the value's text,
    /// or the text as it was kept.
    pub fn render(&self) -> (r: String)
        ensures
            r@ == field_shown::<T>(self@),
    {
        match self {
            Field::Absent => "---".to_owned(),
            Field::Present(v) => v.render_value(),
            Field::NotStandard(s) => s.clone(),
        }
    }

    /// Compares two fields.
    pub fn compare(&self, other: &Field<T>) -> (r: Order)
        ensures
            r == field_order::<T>(self@, other@),
    {
        match (self, other) {
            (Field::Absent, Field::Absent) => Order::Equal,
            (Field::Absent, _) => Order::Less,
            (_, Field::Absent) => Order::Greater,
            (Field::Present(x), Field::Present(y)) => x.compare_value(y),
            _ => {
                let a = self.render();
                let b = other.render();
                compare_text(a.as_str(), b.as_str())
            },
        }
    }
}

impl<T> Field<T> {
    /// The value, where the field is present with one.
    pub fn present(self) -> (r: Option<T>)
        ensures
            r == (match self {
                Field::Present(v) => Some(v),
                _ => None,
            }),
    {
        match self {
            Field::Present(v) => Some(v),
            _ => None,
        }
    }

    /// Takes the field out and leaves an absent one in its place.
    pub fn take(&mut self) -> (r: Field<T>)
        ensures
            r == *old(self),
            *final(self) == Field::<T>::Absent,
    {
        let mut result = Field::Absent;
        swap(&mut result, self);
        result
    }
}

/// The text under which a field of free text is indexed: nothing for an
/// absent field, else the text itself.
pub open spec fn index_key(f: FieldText<Seq<char>>) -> Seq<char> {
    match f {
        FieldText::Absent => Seq::empty(),
        FieldText::Present(s) => s,
        FieldText::NotStandard(s) => s,
    }
}

impl Field<String> {
    /// The index entry of a field of free text.
    pub fn index(&self) -> (r: Index)
        ensures
            r@ == index_key(self@),
    {
        proof {
            reveal_strlit("");
        }
        match self {
            Field::Absent => Index::new(""),
            Field::Present(s) => Index::new(s.as_str()),
            Field::NotStandard(s) => Index::new(s.as_str()),
        }
    }
}

impl FieldValue for String {
    open spec fn read(s: Seq<char>) -> Option<Seq<char>> {
        Some(s)
    }

    open spec fn shown(v: Seq<char>) -> Seq<char> {
        v
    }

    open spec fn order(a: Seq<char>, b: Seq<char>) -> Order {
        text_order(a, b)
    }

    fn parse_value(s: &str) -> (r: Option<String>) {
        Some(s.to_owned())
    }

    fn render_value(&self) -> (r: String) {
        self.clone()
    }

    fn compare_value(&self, other: &String) -> (r: Order) {
        compare_text(self.as_str(), other.as_str())
    }
}

} // verus!
