//! A parsed TOML document, in the shape configuration decoding reads it.
//!
//! Configuration is two levels deep: top-level keys, some of which are
//! sections (tables) holding scalar keys. Values the decoder never reads --
//! floats, dates, arrays, tables nested below a section -- are kept only as
//! "some other value", which is all decoding needs to know about them.

use vstd::prelude::*;

verus! {

/// A value at the bottom of the document.
#[derive(Debug, Clone)]
pub enum TomlScalar {
    /// A string.
    Str(String),
    /// An integer.
    Int(i64),
    /// A boolean.
    Bool(bool),
    /// A float, date-time, array or table.
    Other,
}

/// A top-level value: a section or a scalar.
#[derive(Debug, Clone)]
pub enum TomlItem {
    /// A scalar at the top level.
    Scalar(TomlScalar),
    /// A table, holding its keys in the order the parser hands them over
    /// (sorted by key).
    Table(Vec<(String, TomlScalar)>),
}

/// A whole document: its top-level keys in the order the parser hands them
/// over (sorted by key).
#[derive(Debug, Clone)]
pub struct TomlDocument {
    /// Every top-level key with its value.
    pub entries: Vec<(String, TomlItem)>,
}

/// The abstract form of [`TomlScalar`].
pub enum ScalarView {
    Str(Seq<char>),
    Int(i64),
    Bool(bool),
    Other,
}

/// The abstract form of [`TomlItem`].
pub enum ItemView {
    Scalar(ScalarView),
    Table(Seq<(Seq<char>, ScalarView)>),
}

impl View for TomlScalar {
    type V = ScalarView;

    open spec fn view(&self) -> ScalarView {
        match self {
            TomlScalar::Str(s) => ScalarView::Str(s@),
            TomlScalar::Int(i) => ScalarView::Int(*i),
            TomlScalar::Bool(b) => ScalarView::Bool(*b),
            TomlScalar::Other => ScalarView::Other,
        }
    }
}

/// The abstract form of one key of a section.
pub open spec fn key_view(e: (String, TomlScalar)) -> (Seq<char>, ScalarView) {
    (e.0@, e.1@)
}

impl View for TomlItem {
    type V = ItemView;

    open spec fn view(&self) -> ItemView {
        match self {
            TomlItem::Scalar(s) => ItemView::Scalar(s@),
            TomlItem::Table(t) => ItemView::Table(t@.map_values(|e: (String, TomlScalar)| key_view(e))),
        }
    }
}

/// The abstract form of one top-level key.
pub open spec fn entry_view(e: (String, TomlItem)) -> (Seq<char>, ItemView) {
    (e.0@, e.1@)
}

impl View for TomlDocument {
    type V = Seq<(Seq<char>, ItemView)>;

    open spec fn view(&self) -> Seq<(Seq<char>, ItemView)> {
        self.entries@.map_values(|e: (String, TomlItem)| entry_view(e))
    }
}

/// The document the `toml` crate reads from `text`, or its explanation of why
/// `text` is not TOML. What it returns is a function of the text alone.
pub uninterp spec fn toml_document(text: Seq<char>) -> Result<Seq<(Seq<char>, ItemView)>, Seq<char>>;

/// Parses TOML text into a document.
///
/// Trusted: calls `toml::from_str` into a `toml::Table` and copies each value
/// into the library's shape, one for one (strings, integers and booleans by
/// value, every other kind of value as `Other`, and tables below a section as
/// `Other`). The contract claims only that the outcome is the one the crate
/// computes from the text, named `toml_document`; on failure the text is the
/// crate's own message.
#[verifier::external_body]
pub(crate) fn parse_toml(text: &str) -> (r: Result<TomlDocument, String>)
    ensures
        match toml_document(text@) {
            Ok(d) => r matches Ok(doc) && doc@ == d,
            Err(m) => r matches Err(e) && e@ == m,
        },
{
    let scalar = |v: toml::Value| match v {
        toml::Value::String(s) => TomlScalar::Str(s),
        toml::Value::Integer(i) => TomlScalar::Int(i),
        toml::Value::Boolean(b) => TomlScalar::Bool(b),
        _ => TomlScalar::Other,
    };
    let table: toml::Table = toml::from_str(text).map_err(|e| e.message().to_owned())?;
    Ok(TomlDocument { entries: table.into_iter().map(|(k, v)| match v {
        toml::Value::Table(t) => (k, TomlItem::Table(t.into_iter().map(|(k, v)| (k, scalar(v))).collect())),
        v => (k, TomlItem::Scalar(scalar(v))),
    }).collect() })
}

} // verus!
