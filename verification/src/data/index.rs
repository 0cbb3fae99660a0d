//! The entry of a name in the index of names: the parts under which the name
//! is sorted, and the text of the entry. How a given name is entered is
//! looked up in a table of names, which the caller supplies.

use vstd::prelude::*;
use vstd::string::StringExecFns;
use crate::text::{capitalize, capitalized, chars_of, is_word, text_of};

verus! {

/// An index entry: the name as the source gives it.
#[derive(Debug, PartialEq, Eq)]
pub struct Index {
    pub key: String,
}

impl View for Index {
    type V = Seq<char>;

    open spec fn view(&self) -> Seq<char> {
        self.key@
    }
}

/// How the table enters a name in the index.
#[derive(Debug, PartialEq, Eq)]
pub enum Entry {
    /// Under the given parts, the first of which sorts the entry.
    Parts(Vec<String>),
    /// Not at all.
    Nothing,
    /// As each of the given names in turn.
    Several(Vec<String>),
}

/// One line of the table of names: the spellings of a name and its entry.
#[derive(Debug, PartialEq, Eq)]
pub struct Line {
    pub spellings: Vec<String>,
    pub entry: Entry,
}

/// The mathematical value of an `Entry`.
pub enum EntryText {
    Parts(Seq<Seq<char>>),
    Nothing,
    Several(Seq<Seq<char>>),
}

/// The mathematical value of a `Line`.
pub struct LineText {
    pub spellings: Seq<Seq<char>>,
    pub entry: EntryText,
}

impl View for Entry {
    type V = EntryText;

    open spec fn view(&self) -> EntryText {
        match self {
            Entry::Parts(parts) => EntryText::Parts(parts_of(*parts)),
            Entry::Nothing => EntryText::Nothing,
            Entry::Several(names) => EntryText::Several(parts_of(*names)),
        }
    }
}

impl View for Line {
    type V = LineText;

    open spec fn view(&self) -> LineText {
        LineText { spellings: parts_of(self.spellings), entry: self.entry@ }
    }
}

/// The lines of a table.
pub open spec fn lines_of(table: Vec<Line>) -> Seq<LineText> {
    table@.map_values(|l: Line| l@)
}

/// The first line of the table that has the name among its spellings.
pub open spec fn found_line(table: Seq<LineText>, name: Seq<char>) -> Option<int>
    decreases table.len(),
{
    if table.len() == 0 {
        None
    } else if table[0].spellings.contains(name) {
        Some(0)
    } else {
        match found_line(table.drop_first(), name) {
            Some(i) => Some(i + 1),
            None => None,
        }
    }
}

/// The text that enters a name in the index. An empty name is not entered.
/// A name that the table knows is entered as its line says; one that stands
/// for several names is entered as each of them in turn, looked up again,
/// as far as `depth` allows. A name that the table does not know is entered
/// under its first word.
pub open spec fn indexed(table: Seq<LineText>, name: Seq<char>, depth: nat) -> Seq<char>
    decreases depth, 0nat,
{
    if name.len() == 0 {
        Seq::empty()
    } else {
        match found_line(table, name) {
            None => entry_text(name_parts(name)),
            Some(i) => match table[i].entry {
                EntryText::Parts(parts) => entry_text(parts),
                EntryText::Nothing => Seq::empty(),
                EntryText::Several(names) => if depth == 0 {
                    Seq::empty()
                } else {
                    all_indexed(table, names, (depth - 1) as nat)
                },
            },
        }
    }
}

/// The texts that enter each of the names in the index, one after another.
pub open spec fn all_indexed(table: Seq<LineText>, names: Seq<Seq<char>>, depth: nat) -> Seq<
    char,
>
    decreases depth, 1 + names.len(),
{
    if names.len() == 0 {
        Seq::empty()
    } else {
        all_indexed(table, names.drop_last(), depth) + indexed(table, names.last(), depth)
    }
}

/// The position of the first space of a text, or its length where it has
/// none.
pub open spec fn first_space(s: Seq<char>) -> int
    decreases s.len(),
{
    if s.len() == 0 || s[0] == ' ' {
        0
    } else {
        1 + first_space(s.drop_first())
    }
}

/// The parts under which a name is sorted where nothing more is known of
/// it: its first word, and what follows the first space, if there is one.
pub open spec fn name_parts(name: Seq<char>) -> Seq<Seq<char>> {
    let at = first_space(name);
    if at >= name.len() {
        seq![name]
    } else {
        seq![name.take(at), name.skip(at + 1)]
    }
}

/// The parts after the first, each behind an exclamation mark.
pub open spec fn sub_entries(parts: Seq<Seq<char>>) -> Seq<char>
    decreases parts.len(),
{
    if parts.len() == 0 {
        Seq::empty()
    } else {
        sub_entries(parts.drop_last()) + seq!['!'] + parts.last()
    }
}

/// The text of the entry for the given parts: the first part with a capital
/// first letter, then each further part behind an exclamation mark, all of
/// it inside the index command.
pub open spec fn entry_text(parts: Seq<Seq<char>>) -> Seq<char> {
    if parts.len() == 0 {
        "\\index{"@ + "}"@
    } else {
        "\\index{"@ + capitalized(parts[0]) + sub_entries(parts.skip(1)) + "}"@
    }
}

/// The texts of a run of parts.
pub open spec fn parts_of(parts: Vec<String>) -> Seq<Seq<char>> {
    parts@.map_values(|p: String| p@)
}

/// A position whose character is the first space of the text.
proof fn lemma_first_space_found(s: Seq<char>, at: int)
    requires
        0 <= at <= s.len(),
        at < s.len() ==> s[at] == ' ',
        forall|i: int| 0 <= i < at ==> s[i] != ' ',
    ensures
        first_space(s) == at,
    decreases s.len(),
{
    if s.len() == 0 || s[0] == ' ' {
    } else {
        let rest = s.drop_first();
        assert forall|i: int| 0 <= i < at - 1 implies rest[i] != ' ' by {
            assert(rest[i] == s[i + 1]);
        }
        lemma_first_space_found(rest, at - 1);
    }
}

/// Tests whether a line has the name among its spellings.
pub fn spells(line: &Line, name: &Vec<char>) -> (r: bool)
    ensures
        r == line@.spellings.contains(name@),
{
    let mut j: usize = 0;
    while j < line.spellings.len()
        invariant
            j <= line.spellings.len(),
            forall|k: int| 0 <= k < j ==> line@.spellings[k] != name@,
        decreases line.spellings.len() - j,
    {
        if is_word(name, line.spellings[j].as_str()) {
            assert(line@.spellings[j as int] == name@);
            return true;
        }
        j += 1;
    }
    false
}

/// Finds the first line of the table that has the name among its spellings.
pub fn find_line(table: &Vec<Line>, name: &str) -> (r: Option<usize>)
    ensures
        match r {
            Some(i) => found_line(lines_of(*table), name@) == Some(i as int) && i < table.len(),
            None => found_line(lines_of(*table), name@) is None,
        },
{
    let chars = chars_of(name);
    let ghost all = lines_of(*table);
    let mut i: usize = 0;
    assert(all.skip(0) == all);
    while i < table.len()
        invariant
            i <= table.len(),
            chars@ == name@,
            all == lines_of(*table),
            found_line(all, name@) == (match found_line(all.skip(i as int), name@) {
                Some(k) => Some(k + i),
                None => None,
            }),
        decreases table.len() - i,
    {
        proof {
            assert(all.skip(i as int)[0] == table@[i as int]@);
            assert(all.skip(i as int).drop_first() == all.skip(i + 1));
        }
        if spells(&table[i], &chars) {
            return Some(i);
        }
        i += 1;
    }
    None
}

/// Writes the text that enters a name in the index.
pub fn render_name(table: &Vec<Line>, name: &str, depth: usize) -> (r: String)
    ensures
        r@ == indexed(lines_of(*table), name@, depth as nat),
    decreases depth,
{
    if name.is_empty() {
        return String::new();
    }
    match find_line(table, name) {
        None => {
            let index = Index::new(name);
            Index::entry(&index.parts())
        },
        Some(i) => match &table[i].entry {
            Entry::Parts(parts) => Index::entry(parts),
            Entry::Nothing => String::new(),
            Entry::Several(names) => {
                let mut out = String::new();
                if depth > 0 {
                    let ghost all = parts_of(*names);
                    let mut k: usize = 0;
                    assert(all.take(0) == Seq::<Seq<char>>::empty());
                    while k < names.len()
                        invariant
                            k <= names.len(),
                            depth > 0,
                            all == parts_of(*names),
                            out@ == all_indexed(
                                lines_of(*table),
                                all.take(k as int),
                                (depth - 1) as nat,
                            ),
                        decreases names.len() - k,
                    {
                        proof {
                            assert(all.take(k + 1).drop_last() == all.take(k as int));
                            assert(all.take(k + 1).last() == names@[k as int]@);
                        }
                        let one = render_name(table, names[k].as_str(), depth - 1);
                        out.append(one.as_str());
                        k += 1;
                    }
                    assert(all.take(names.len() as int) == all);
                }
                out
            },
        },
    }
}

impl Index {
    /// Writes the text that enters the name in the index. A name that
    /// stands for several names is followed through as many lines as the
    /// table has.
    pub fn render(&self, table: &Vec<Line>) -> (r: String)
        ensures
            r@ == indexed(lines_of(*table), self@, table.len() as nat),
    {
        render_name(table, self.key.as_str(), table.len())
    }

    /// The entry for a name.
    pub fn new(name: &str) -> (r: Index)
        ensures
            r@ == name@,
    {
        Index { key: name.to_owned() }
    }

    /// Whether there is nothing to enter.
    pub fn is_empty(&self) -> (r: bool)
        ensures
            r == (self@.len() == 0),
    {
        self.key.as_str().is_empty()
    }

    /// The parts under which the name is sorted where nothing more is known
    /// of it.
    pub fn parts(&self) -> (r: Vec<String>)
        ensures
            parts_of(r) == name_parts(self@),
    {
        let chars = chars_of(self.key.as_str());
        let mut at: usize = 0;
        while at < chars.len() && chars[at] != ' '
            invariant
                at <= chars.len(),
                forall|i: int| 0 <= i < at ==> chars@[i] != ' ',
            decreases chars.len() - at,
        {
            at += 1;
        }
        proof {
            lemma_first_space_found(chars@, at as int);
        }
        let mut r: Vec<String> = Vec::new();
        if at >= chars.len() {
            r.push(self.key.clone());
            assert(parts_of(r) == seq![self@]);
        } else {
            let mut head: Vec<char> = Vec::new();
            let mut tail: Vec<char> = Vec::new();
            let mut i: usize = 0;
            while i < chars.len()
                invariant
                    i <= chars.len(),
                    at < chars.len(),
                    head@ == chars@.take(if i <= at { i as int } else { at as int }),
                    tail@ == chars@.subrange(at + 1, if i <= at { at + 1 } else { i as int }),
                decreases chars.len() - i,
            {
                if i < at {
                    head.push(chars[i]);
                } else if i > at {
                    tail.push(chars[i]);
                }
                i += 1;
            }
            assert(tail@ == chars@.skip(at + 1));
            let first = text_of(&head);
            let second = text_of(&tail);
            r.push(first);
            r.push(second);
            assert(parts_of(r) == seq![chars@.take(at as int), chars@.skip(at + 1)]);
        }
        r
    }

    /// The text of the entry for the given parts.
    pub fn entry(parts: &Vec<String>) -> (r: String)
        ensures
            r@ == entry_text(parts_of(*parts)),
    {
        let mut r = String::from_str("\\index{");
        if parts.len() > 0 {
            let ghost all = parts_of(*parts);
            let first = capitalize(parts[0].as_str());
            r.append(first.as_str());
            let mut i: usize = 1;
            assert(all.skip(1).take(0) == Seq::<Seq<char>>::empty());
            while i < parts.len()
                invariant
                    1 <= i <= parts.len(),
                    all == parts_of(*parts),
                    r@ == "\\index{"@ + capitalized(all[0]) + sub_entries(
                        all.skip(1).take(i - 1),
                    ),
                decreases parts.len() - i,
            {
                proof {
                    let shown = all.skip(1).take(i as int);
                    assert(shown.drop_last() == all.skip(1).take(i - 1));
                    assert(shown.last() == parts@[i as int]@);
                }
                r.push('!');
                r.append(parts[i].as_str());
                i += 1;
            }
            assert(all.skip(1).take(parts.len() - 1) == all.skip(1));
        }
        r.append("}");
        r
    }
}

} // verus!
