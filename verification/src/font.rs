//! Font-backend data carriers, and the outside font-parsing calls the
//! glyph and table queries rely on.
//!
//! The font file is held as plain bytes; everything the outside parser
//! computes from those bytes is deterministic in them, so its results
//! are named and the queries' contracts speak of those names.

use vstd::prelude::*;
use skrifa::MetadataProvider;

verus! {

/// A raw font table: the bytes of one table of a font file.
#[derive(Debug)]
pub struct FontTable {
    buffer: Vec<u8>,
}

impl View for FontTable {
    type V = Seq<u8>;

    closed spec fn view(&self) -> Seq<u8> {
        self.buffer@
    }
}

impl FontTable {
    /// Wraps table bytes.
    pub fn new(buffer: Vec<u8>) -> (t: FontTable)
        ensures
            t@ == buffer@,
    {
        FontTable { buffer }
    }

    /// The table's raw bytes.
    pub fn buffer(&self) -> (r: &[u8])
        ensures
            r@ == self@,
    {
        self.buffer.as_slice()
    }
}

/// An owned font file: the raw bytes every font query parses anew.
#[derive(Debug)]
pub struct Test(Vec<u8>);

/// The glyph a codepoint maps to in a font file, through the font's
/// character map; `None` for an unparsable font or an unmapped
/// codepoint.
pub uninterp spec fn glyph_index_of(data: Seq<u8>, codepoint: char) -> Option<u32>;

/// The bytes of the font table with the given tag; `None` for an
/// unparsable font or an absent table.
pub uninterp spec fn font_table_of(data: Seq<u8>, tag: u32) -> Option<Seq<u8>>;

/// The font's localized name record with the given identifier, in its
/// English or first localization.
pub uninterp spec fn localized_string_of(data: Seq<u8>, id: u16) -> Option<Seq<char>>;

/// Relies on skrifa's `FontRef::new` and `Charmap::map`: the glyph a
/// codepoint maps to depends on the font bytes and the codepoint
/// alone, and an unparsable font maps nothing.
#[verifier::external_body]
fn skrifa_glyph_index(data: &Vec<u8>, codepoint: char) -> (r: Option<u32>)
    ensures
        r == glyph_index_of(data@, codepoint),
{
    skrifa::FontRef::new(data.as_slice())
        .ok()
        .and_then(|f| f.charmap().map(codepoint))
        .map(|g| g.to_u32())
}

/// Relies on skrifa's `FontRef::new` and `table_data`: a table's bytes
/// depend on the font bytes and the tag alone.
#[verifier::external_body]
fn skrifa_table_data(data: &Vec<u8>, tag: u32) -> (r: Option<Vec<u8>>)
    ensures
        r is Some <==> font_table_of(data@, tag) is Some,
        r is Some ==> r->Some_0@ == font_table_of(data@, tag)->Some_0,
{
    skrifa::FontRef::new(data.as_slice())
        .ok()
        .and_then(|f| f.table_data(skrifa::Tag::from_u32(tag)))
        .map(|d| d.as_bytes().to_vec())
}

/// Relies on skrifa's `FontRef::new` and `localized_strings` with
/// `english_or_first`: the record depends on the font bytes and the
/// identifier alone.
#[verifier::external_body]
fn skrifa_localized_string(data: &Vec<u8>, id: u16) -> (r: Option<String>)
    ensures
        r is Some <==> localized_string_of(data@, id) is Some,
        r is Some ==> r->Some_0@ == localized_string_of(data@, id)->Some_0,
{
    skrifa::FontRef::new(data.as_slice())
        .ok()
        .and_then(|f| {
            f.localized_strings(skrifa::string::StringId::new(id))
                .english_or_first()
                .map(|s| s.to_string())
        })
}

/// The OpenType name identifier of the family name record.
pub const FAMILY_NAME_ID: u16 = 1;

/// The OpenType name identifier of the subfamily name record.
pub const SUBFAMILY_NAME_ID: u16 = 2;

impl View for Test {
    type V = Seq<u8>;

    closed spec fn view(&self) -> Seq<u8> {
        self.0@
    }
}

impl Test {
    /// Wraps font-file bytes.
    pub fn new(bytes: Vec<u8>) -> (t: Test)
        ensures
            t@ == bytes@,
    {
        Test(bytes)
    }

    /// The font file's raw bytes.
    pub fn bytes(&self) -> (r: &[u8])
        ensures
            r@ == self@,
    {
        self.0.as_slice()
    }

    /// The glyph a codepoint maps to in this font.
    pub fn glyph_index(&self, codepoint: char) -> (r: Option<u32>)
        ensures
            r == glyph_index_of(self@, codepoint),
    {
        skrifa_glyph_index(&self.0, codepoint)
    }

    /// The table with the given tag, as an owned copy of its bytes.
    pub fn table_for_tag(&self, tag: u32) -> (r: Option<FontTable>)
        ensures
            r is Some <==> font_table_of(self@, tag) is Some,
            r is Some ==> r->Some_0@ == font_table_of(self@, tag)->Some_0,
    {
        match skrifa_table_data(&self.0, tag) {
            None => None,
            Some(bytes) => Some(FontTable::new(bytes)),
        }
    }

    /// The font's family name, when its name table carries one.
    pub fn family_name(&self) -> (r: Option<String>)
        ensures
            r is Some <==> localized_string_of(self@, FAMILY_NAME_ID) is Some,
            r is Some ==> r->Some_0@ == localized_string_of(self@, FAMILY_NAME_ID)->Some_0,
    {
        skrifa_localized_string(&self.0, FAMILY_NAME_ID)
    }

    /// The font's subfamily (face) name, when its name table carries
    /// one.
    pub fn face_name(&self) -> (r: Option<String>)
        ensures
            r is Some <==> localized_string_of(self@, SUBFAMILY_NAME_ID) is Some,
            r is Some ==> r->Some_0@ == localized_string_of(self@, SUBFAMILY_NAME_ID)->Some_0,
    {
        skrifa_localized_string(&self.0, SUBFAMILY_NAME_ID)
    }

    /// Whether this backend can shape text without a full shaper: it
    /// cannot.
    pub fn can_do_fast_shaping(&self) -> (r: bool)
        ensures
            r == false,
    {
        false
    }
}

} // verus!
