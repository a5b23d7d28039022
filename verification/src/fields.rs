//! Key/value documents in TOML, read as flat tables of fields.

use vstd::prelude::*;
use crate::error::{Flaw, FlawView};
use crate::nesting::{nesting_peak, nesting_peak_of};

verus! {

#[verifier::external_type_specification]
#[verifier::external_body]
pub struct ExTomlError(toml::de::Error);

/// The value of one top-level field, as far as this crate reads it.
#[derive(Debug)]
pub enum FieldValue {
    /// A string.
    Text(String),
    /// A boolean.
    Flag(bool),
    /// A value of any other type.
    Other,
}

/// A field value as a mathematical value.
pub enum FieldView {
    Text(Seq<char>),
    Flag(bool),
    Other,
}

impl View for FieldValue {
    type V = FieldView;

    open spec fn view(&self) -> FieldView {
        match self {
            FieldValue::Text(text) => FieldView::Text(text@),
            FieldValue::Flag(flag) => FieldView::Flag(*flag),
            FieldValue::Other => FieldView::Other,
        }
    }
}

/// The deepest nesting of tables and arrays that is read.
pub const MAX_NESTING: usize = 128;

/// What the parser makes of a text: the top-level fields of the document,
/// in the order in which it hands them out, or its error.
pub uninterp spec fn toml_document(text: Seq<char>) -> Result<
    Seq<(Seq<char>, FieldView)>,
    toml::de::Error,
>;

/// The message of a parser error.
pub uninterp spec fn error_message(error: toml::de::Error) -> Seq<char>;

/// A list of fields as mathematical values.
pub open spec fn entries_view(entries: Seq<(String, FieldValue)>) -> Seq<(Seq<char>, FieldView)> {
    entries.map_values(|entry: (String, FieldValue)| (entry.0@, entry.1@))
}

/// `toml::from_str` into a `toml::value::Table`, each value reduced to what
/// this crate reads of it. The contract names the outcome as a function of
/// the text. The parser calls itself once for every array and inline table
/// that is open, and the values it builds are as deep as table headers and
/// dotted keys have parts, or twice as deep where the parts name arrays of
/// tables; `nesting_peak` follows the same brackets, braces and dots past
/// the same strings and comments, so a bound on it bounds the depth.
#[verifier::external_body]
fn read_fields(text: &str) -> (outcome: Result<Vec<(String, FieldValue)>, toml::de::Error>)
    requires
        nesting_peak(text@) <= MAX_NESTING,
    ensures
        match outcome {
            Ok(entries) => toml_document(text@) matches Ok(fields) && fields == entries_view(
                entries@,
            ),
            Err(error) => toml_document(text@) matches Err(failure) && failure == error,
        },
{
    let table: toml::value::Table = toml::from_str(text)?;
    Ok(
        table.into_iter().map(
            |(key, value)| (key, match value {
                toml::Value::String(text) => FieldValue::Text(text),
                toml::Value::Boolean(flag) => FieldValue::Flag(flag),
                _ => FieldValue::Other,
            }),
        ).collect(),
    )
}

/// The message of a `toml::de::Error`, as its `Display` writes it. The
/// contract names the message as a function of the error.
#[verifier::external_body]
fn error_text(error: &toml::de::Error) -> (message: String)
    ensures
        message@ == error_message(*error),
{
    format!("{}", error)
}

/// The fields of a document, or why it cannot be read: its tables and
/// arrays nest deeper than `MAX_NESTING`, or the parser rejects it.
pub open spec fn document_fields(text: Seq<char>) -> Result<Seq<(Seq<char>, FieldView)>, FlawView> {
    if nesting_peak(text) > MAX_NESTING {
        Err(FlawView::TooDeep)
    } else {
        match toml_document(text) {
            Ok(fields) => Ok(fields),
            Err(error) => Err(FlawView::Syntax { message: error_message(error) }),
        }
    }
}

/// The value of the first field named `key`, if there is one.
pub open spec fn field(entries: Seq<(Seq<char>, FieldView)>, key: Seq<char>) -> Option<FieldView>
    decreases entries.len(),
{
    if entries.len() == 0 {
        None
    } else if entries[0].0 == key {
        Some(entries[0].1)
    } else {
        field(entries.drop_first(), key)
    }
}

/// A field that must be there and hold a string.
pub open spec fn required_text(entries: Seq<(Seq<char>, FieldView)>, key: Seq<char>) -> Result<
    Seq<char>,
    FlawView,
> {
    match field(entries, key) {
        Some(FieldView::Text(text)) => Ok(text),
        Some(_) => Err(FlawView::Mistyped { field: key }),
        None => Err(FlawView::Missing { field: key }),
    }
}

/// A field that may be missing and must hold a string if it is there.
pub open spec fn optional_text(entries: Seq<(Seq<char>, FieldView)>, key: Seq<char>) -> Result<
    Option<Seq<char>>,
    FlawView,
> {
    match field(entries, key) {
        None => Ok(None),
        Some(FieldView::Text(text)) => Ok(Some(text)),
        Some(_) => Err(FlawView::Mistyped { field: key }),
    }
}

/// A field that may be missing and must hold a boolean if it is there.
pub open spec fn optional_flag(entries: Seq<(Seq<char>, FieldView)>, key: Seq<char>) -> Result<
    Option<bool>,
    FlawView,
> {
    match field(entries, key) {
        None => Ok(None),
        Some(FieldView::Flag(flag)) => Ok(Some(flag)),
        Some(_) => Err(FlawView::Mistyped { field: key }),
    }
}

/// The top-level fields of a parsed document.
#[derive(Debug)]
pub struct Table {
    pub entries: Vec<(String, FieldValue)>,
}

impl View for Table {
    type V = Seq<(Seq<char>, FieldView)>;

    open spec fn view(&self) -> Seq<(Seq<char>, FieldView)> {
        entries_view(self.entries@)
    }
}

impl Table {
    /// Parses a TOML document whose tables and arrays nest no deeper
    /// than `MAX_NESTING`.
    pub fn parse(text: &str) -> (outcome: Result<Table, Flaw>)
        ensures
            match outcome {
                Ok(table) => document_fields(text@) matches Ok(fields) && fields == table@,
                Err(flaw) => document_fields(text@) matches Err(reason) && reason == flaw@,
            },
    {
        if nesting_peak_of(text) > MAX_NESTING {
            return Err(Flaw::TooDeep);
        }
        match read_fields(text) {
            Ok(entries) => Ok(Table { entries }),
            Err(error) => Err(Flaw::Syntax { message: error_text(&error) }),
        }
    }

    /// The value of the first field named `key`.
    pub fn get(&self, key: &str) -> (value: Option<&FieldValue>)
        ensures
            match value {
                Some(found) => field(self@, key@) == Some(found@),
                None => field(self@, key@) is None,
            },
    {
        let wanted = key.to_owned();
        let mut i: usize = 0;
        assert(self@.skip(0) =~= self@);
        while i < self.entries.len()
            invariant
                i <= self.entries.len(),
                wanted@ == key@,
                field(self@, key@) == field(self@.skip(i as int), key@),
            decreases self.entries.len() - i,
        {
            let ghost rest = self@.skip(i as int);
            assert(rest[0] == self@[i as int]);
            assert(rest.drop_first() =~= self@.skip(i + 1));
            if self.entries[i].0 == wanted {
                return Some(&self.entries[i].1);
            }
            i += 1;
        }
        None
    }

    /// The string held by a field that must be there.
    pub fn text(&self, key: &str) -> (value: Result<String, Flaw>)
        ensures
            match value {
                Ok(text) => required_text(self@, key@) matches Ok(held) && held == text@,
                Err(flaw) => required_text(self@, key@) matches Err(reason) && reason == flaw@,
            },
    {
        match self.get(key) {
            Some(FieldValue::Text(text)) => Ok(text.clone()),
            Some(_) => Err(Flaw::Mistyped { field: key.to_owned() }),
            None => Err(Flaw::Missing { field: key.to_owned() }),
        }
    }

    /// The string held by a field that may be missing.
    pub fn text_if_present(&self, key: &str) -> (value: Result<Option<String>, Flaw>)
        ensures
            match value {
                Ok(Some(text)) => optional_text(self@, key@) matches Ok(Some(held)) && held
                    == text@,
                Ok(None) => optional_text(self@, key@) matches Ok(None),
                Err(flaw) => optional_text(self@, key@) matches Err(reason) && reason == flaw@,
            },
    {
        match self.get(key) {
            None => Ok(None),
            Some(FieldValue::Text(text)) => Ok(Some(text.clone())),
            Some(_) => Err(Flaw::Mistyped { field: key.to_owned() }),
        }
    }

    /// The boolean held by a field that may be missing.
    pub fn flag_if_present(&self, key: &str) -> (value: Result<Option<bool>, Flaw>)
        ensures
            match value {
                Ok(flag) => optional_flag(self@, key@) matches Ok(held) && held == flag,
                Err(flaw) => optional_flag(self@, key@) matches Err(reason) && reason == flaw@,
            },
    {
        match self.get(key) {
            None => Ok(None),
            Some(FieldValue::Flag(flag)) => Ok(Some(*flag)),
            Some(_) => Err(Flaw::Mistyped { field: key.to_owned() }),
        }
    }
}

} // verus!
