//! Reading a configuration document.
//!
//! The document is TOML and the `toml` crate parses it.  The launcher needs
//! little of it: the text of the `mode` field, and which sections are there.

use vstd::prelude::*;
use crate::config::SectionSet;
use crate::error::Section;

verus! {

/// A parsed TOML value of the `toml` crate.  The launcher holds the
/// document as one such value and looks into it through [`lookup`] alone.
#[verifier::external_type_specification]
#[verifier::external_body]
pub struct ExTomlValue(toml::Value);

/// The top-level entries of a document, as far as the launcher tells them
/// apart: under each key the text, where the value is a string, and `None`
/// where it is anything else.  A value that is no table has no entries.
pub uninterp spec fn entries(document: toml::Value) -> Map<Seq<char>, Option<Seq<char>>>;

/// What `toml::from_str` makes of a text: the entries of the document, or
/// `None` where the text is not TOML.
pub uninterp spec fn parsed_entries(text: Seq<char>) -> Option<Map<Seq<char>, Option<Seq<char>>>>;

/// What stands under a key of a document.
#[derive(Clone, Debug, PartialEq, Eq)]
pub enum Field {
    /// Nothing; the key is not there.
    Absent,
    /// A string.
    Text(String),
    /// A value of any other kind: a number, a table and so on.
    Other,
}

impl Field {
    /// Whether the field is what a map of entries holds under a key.
    pub open spec fn found_in(self, all: Map<Seq<char>, Option<Seq<char>>>, key: Seq<char>) -> bool {
        match self {
            Field::Absent => !all.contains_key(key),
            Field::Text(text) => all.contains_key(key) && all[key] == Some(text@),
            Field::Other => all.contains_key(key) && all[key] is None,
        }
    }
}

/// `toml::from_str`, at the type `toml::Value`.  Whether the text parses and
/// what the document then holds depend on the text alone; the contract names
/// that outcome [`parsed_entries`] and ties it to the value handed back.
#[verifier::external_body]
fn parse_document(text: &str) -> (parsed: Result<toml::Value, toml::de::Error>)
    ensures
        match parsed {
            Ok(document) => parsed_entries(text@) == Some(entries(document)),
            Err(_) => parsed_entries(text@) is None,
        },
{
    toml::from_str::<toml::Value>(text)
}

/// `toml::Value::get` with a string key: the entry under the key where the
/// value is a table that has one, told apart by whether it is a string.
#[verifier::external_body]
fn lookup(document: &toml::Value, key: &str) -> (field: Field)
    ensures
        field.found_in(entries(*document), key@),
{
    match document.get(key) {
        None => Field::Absent,
        Some(toml::Value::String(text)) => Field::Text(text.clone()),
        Some(_) => Field::Other,
    }
}

/// What the launcher reads off a document.
#[derive(Clone, Debug, PartialEq, Eq)]
pub struct ConfigOutline {
    /// What stands under `mode`.
    pub mode: Field,
    /// Which sections are present.
    pub sections: SectionSet,
}

/// The sections among the entries of a document.  A section is present
/// where its key is, whatever stands under it.
pub open spec fn sections_of(all: Map<Seq<char>, Option<Seq<char>>>) -> SectionSet {
    SectionSet {
        trojan: all.contains_key(Section::Trojan.key_text()),
        tls: all.contains_key(Section::Tls.key_text()),
        plaintext: all.contains_key(Section::Plaintext.key_text()),
        websocket: all.contains_key(Section::WebSocket.key_text()),
        mux: all.contains_key(Section::Mux.key_text()),
        socks5: all.contains_key(Section::Socks5.key_text()),
        dokodemo: all.contains_key(Section::Dokodemo.key_text()),
    }
}

impl ConfigOutline {
    /// Whether the outline is that of a document with the given entries.
    pub open spec fn outlines(self, all: Map<Seq<char>, Option<Seq<char>>>) -> bool {
        &&& self.mode.found_in(all, "mode"@)
        &&& self.sections == sections_of(all)
    }
}

/// Whether a document has a section.
fn has_section(document: &toml::Value, section: Section) -> (present: bool)
    ensures
        present == entries(*document).contains_key(section.key_text()),
{
    match lookup(document, section.key()) {
        Field::Absent => false,
        _ => true,
    }
}

/// Reads the outline of a parsed document.
fn read_outline(document: &toml::Value) -> (outline: ConfigOutline)
    ensures
        outline.outlines(entries(*document)),
{
    ConfigOutline {
        mode: lookup(document, "mode"),
        sections: SectionSet {
            trojan: has_section(document, Section::Trojan),
            tls: has_section(document, Section::Tls),
            plaintext: has_section(document, Section::Plaintext),
            websocket: has_section(document, Section::WebSocket),
            mux: has_section(document, Section::Mux),
            socks5: has_section(document, Section::Socks5),
            dokodemo: has_section(document, Section::Dokodemo),
        },
    }
}

/// Parses a configuration document and reads its outline.  It fails where
/// the text is not TOML, and only there.
pub(crate) fn outline_document(text: &str) -> (outline: Result<ConfigOutline, toml::de::Error>)
    ensures
        match outline {
            Ok(outline) => parsed_entries(text@) matches Some(all) && outline.outlines(all),
            Err(_) => parsed_entries(text@) is None,
        },
{
    match parse_document(text) {
        Ok(document) => Ok(read_outline(&document)),
        Err(error) => Err(error),
    }
}

} // verus!
