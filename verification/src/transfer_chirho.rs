//! Moving study data in and out: the records that an export writes, what an
//! import makes of the entries of a backup, and which files of the export
//! directory are backups, newest first.

use vstd::prelude::*;
use vstd::string::StringExecFns;
use crate::database_chirho::{
    add_bookmark_chirho, add_highlight_with_color_chirho, get_all_bookmarks_chirho,
    get_all_highlights_chirho, get_all_notes_chirho, save_note_chirho, BookmarkChirho,
    DbErrorChirho, HighlightChirho, NoteChirho,
};
use crate::display_chirho::{spec_verse_reference_chirho, verse_reference_chirho};
use crate::text_chirho::{
    str_eq_chirho,
    chars_of_chirho, occurs_at_chirho, spec_occurs_at_chirho, spec_starts_with_chirho,
    starts_with_chirho,
};

verus! {

// ---------------------------------------------------------------------------
// Export records
// ---------------------------------------------------------------------------

/// A highlight as an export writes it.
pub struct ExportHighlightChirho {
    pub reference_chirho: String,
    pub book_chirho: String,
    pub chapter_chirho: i32,
    pub verse_chirho: i32,
    pub color_chirho: String,
    pub module_chirho: String,
}

/// A bookmark as an export writes it.
pub struct ExportBookmarkChirho {
    pub reference_chirho: String,
    pub book_chirho: String,
    pub chapter_chirho: i32,
    pub verse_chirho: i32,
    pub label_chirho: Option<String>,
    pub module_chirho: String,
}

/// A note as an export writes it.
pub struct ExportNoteChirho {
    pub reference_chirho: String,
    pub book_chirho: String,
    pub chapter_chirho: i32,
    pub verse_chirho: i32,
    pub content_chirho: String,
    pub module_chirho: String,
    pub created_at_chirho: String,
    pub updated_at_chirho: String,
}

/// `r` is the export record of `h`: its reference and its fields.
pub open spec fn spec_exports_highlight_chirho(r: ExportHighlightChirho, h: HighlightChirho) -> bool {
    &&& r.reference_chirho@ == spec_verse_reference_chirho(
        h.book_chirho@,
        h.chapter_chirho as int,
        h.verse_chirho as int,
    )
    &&& r.book_chirho == h.book_chirho
    &&& r.chapter_chirho == h.chapter_chirho
    &&& r.verse_chirho == h.verse_chirho
    &&& r.color_chirho == h.color_chirho
    &&& r.module_chirho == h.module_chirho
}

/// `r` is the export record of `b`: its reference and its fields.
pub open spec fn spec_exports_bookmark_chirho(r: ExportBookmarkChirho, b: BookmarkChirho) -> bool {
    &&& r.reference_chirho@ == spec_verse_reference_chirho(
        b.book_chirho@,
        b.chapter_chirho as int,
        b.verse_chirho as int,
    )
    &&& r.book_chirho == b.book_chirho
    &&& r.chapter_chirho == b.chapter_chirho
    &&& r.verse_chirho == b.verse_chirho
    &&& r.label_chirho == b.label_chirho
    &&& r.module_chirho == b.module_chirho
}

/// `r` is the export record of `n`: its reference and its fields.
pub open spec fn spec_exports_note_chirho(r: ExportNoteChirho, n: NoteChirho) -> bool {
    &&& r.reference_chirho@ == spec_verse_reference_chirho(
        n.book_chirho@,
        n.chapter_chirho as int,
        n.verse_chirho as int,
    )
    &&& r.book_chirho == n.book_chirho
    &&& r.chapter_chirho == n.chapter_chirho
    &&& r.verse_chirho == n.verse_chirho
    &&& r.content_chirho == n.content_chirho
    &&& r.module_chirho == n.module_chirho
    &&& r.created_at_chirho == n.created_at_chirho
    &&& r.updated_at_chirho == n.updated_at_chirho
}

/// The reference of each record spells its own book, chapter and verse.
pub open spec fn spec_highlight_refs_agree_chirho(v: Seq<ExportHighlightChirho>) -> bool {
    forall|i: int|
        0 <= i < v.len() ==> (#[trigger] v[i]).reference_chirho@ == spec_verse_reference_chirho(
            v[i].book_chirho@,
            v[i].chapter_chirho as int,
            v[i].verse_chirho as int,
        )
}

/// The reference of each record spells its own book, chapter and verse.
pub open spec fn spec_bookmark_refs_agree_chirho(v: Seq<ExportBookmarkChirho>) -> bool {
    forall|i: int|
        0 <= i < v.len() ==> (#[trigger] v[i]).reference_chirho@ == spec_verse_reference_chirho(
            v[i].book_chirho@,
            v[i].chapter_chirho as int,
            v[i].verse_chirho as int,
        )
}

/// The reference of each record spells its own book, chapter and verse.
pub open spec fn spec_note_refs_agree_chirho(v: Seq<ExportNoteChirho>) -> bool {
    forall|i: int|
        0 <= i < v.len() ==> (#[trigger] v[i]).reference_chirho@ == spec_verse_reference_chirho(
            v[i].book_chirho@,
            v[i].chapter_chirho as int,
            v[i].verse_chirho as int,
        )
}

/// The export record of a highlight.
pub fn highlight_export_chirho(h: &HighlightChirho) -> (r: ExportHighlightChirho)
    ensures
        spec_exports_highlight_chirho(r, *h),
{
    ExportHighlightChirho {
        reference_chirho: verse_reference_chirho(h.book_chirho.as_str(), h.chapter_chirho, h.verse_chirho),
        book_chirho: h.book_chirho.clone(),
        chapter_chirho: h.chapter_chirho,
        verse_chirho: h.verse_chirho,
        color_chirho: h.color_chirho.clone(),
        module_chirho: h.module_chirho.clone(),
    }
}

/// The export record of a bookmark.
pub fn bookmark_export_chirho(b: &BookmarkChirho) -> (r: ExportBookmarkChirho)
    ensures
        spec_exports_bookmark_chirho(r, *b),
{
    ExportBookmarkChirho {
        reference_chirho: verse_reference_chirho(b.book_chirho.as_str(), b.chapter_chirho, b.verse_chirho),
        book_chirho: b.book_chirho.clone(),
        chapter_chirho: b.chapter_chirho,
        verse_chirho: b.verse_chirho,
        label_chirho: match &b.label_chirho {
            Some(l) => Some(l.clone()),
            None => None,
        },
        module_chirho: b.module_chirho.clone(),
    }
}

/// The export record of a note.
pub fn note_export_chirho(n: &NoteChirho) -> (r: ExportNoteChirho)
    ensures
        spec_exports_note_chirho(r, *n),
{
    ExportNoteChirho {
        reference_chirho: verse_reference_chirho(n.book_chirho.as_str(), n.chapter_chirho, n.verse_chirho),
        book_chirho: n.book_chirho.clone(),
        chapter_chirho: n.chapter_chirho,
        verse_chirho: n.verse_chirho,
        content_chirho: n.content_chirho.clone(),
        module_chirho: n.module_chirho.clone(),
        created_at_chirho: n.created_at_chirho.clone(),
        updated_at_chirho: n.updated_at_chirho.clone(),
    }
}

/// The export records of `list`, one for each highlight, in order.
pub fn highlight_exports_chirho(list: &Vec<HighlightChirho>) -> (r: Vec<ExportHighlightChirho>)
    ensures
        r.len() == list.len(),
        forall|i: int| 0 <= i < list.len() ==> spec_exports_highlight_chirho(#[trigger] r@[i], list@[i]),
{
    let mut out: Vec<ExportHighlightChirho> = Vec::new();
    let mut i: usize = 0;
    while i < list.len()
        invariant
            i <= list.len(),
            out.len() == i,
            forall|j: int| 0 <= j < i ==> spec_exports_highlight_chirho(#[trigger] out@[j], list@[j]),
        decreases list.len() - i,
    {
        out.push(highlight_export_chirho(&list[i]));
        i = i + 1;
    }
    out
}

/// The export records of `list`, one for each bookmark, in order.
pub fn bookmark_exports_chirho(list: &Vec<BookmarkChirho>) -> (r: Vec<ExportBookmarkChirho>)
    ensures
        r.len() == list.len(),
        forall|i: int| 0 <= i < list.len() ==> spec_exports_bookmark_chirho(#[trigger] r@[i], list@[i]),
{
    let mut out: Vec<ExportBookmarkChirho> = Vec::new();
    let mut i: usize = 0;
    while i < list.len()
        invariant
            i <= list.len(),
            out.len() == i,
            forall|j: int| 0 <= j < i ==> spec_exports_bookmark_chirho(#[trigger] out@[j], list@[j]),
        decreases list.len() - i,
    {
        out.push(bookmark_export_chirho(&list[i]));
        i = i + 1;
    }
    out
}

/// The export records of `list`, one for each note, in order.
pub fn note_exports_chirho(list: &Vec<NoteChirho>) -> (r: Vec<ExportNoteChirho>)
    ensures
        r.len() == list.len(),
        forall|i: int| 0 <= i < list.len() ==> spec_exports_note_chirho(#[trigger] r@[i], list@[i]),
{
    let mut out: Vec<ExportNoteChirho> = Vec::new();
    let mut i: usize = 0;
    while i < list.len()
        invariant
            i <= list.len(),
            out.len() == i,
            forall|j: int| 0 <= j < i ==> spec_exports_note_chirho(#[trigger] out@[j], list@[j]),
        decreases list.len() - i,
    {
        out.push(note_export_chirho(&list[i]));
        i = i + 1;
    }
    out
}

/// The export records of every highlight, newest first. Which highlights
/// there are is up to the database; each record's reference spells its
/// own verse.
pub fn export_highlights_chirho(conn: &rusqlite::Connection) -> (r: Result<
    Vec<ExportHighlightChirho>,
    DbErrorChirho,
>)
    ensures
        r matches Ok(v) ==> spec_highlight_refs_agree_chirho(v@),
{
    let list = get_all_highlights_chirho(conn)?;
    let out = highlight_exports_chirho(&list);
    assert(spec_highlight_refs_agree_chirho(out@)) by {
        assert forall|i: int| 0 <= i < out@.len() implies spec_exports_highlight_chirho(
            #[trigger] out@[i],
            list@[i],
        ) by {}
    }
    Ok(out)
}

/// The export records of every bookmark, newest first. Which bookmarks
/// there are is up to the database; each record's reference spells its
/// own verse.
pub fn export_bookmarks_chirho(conn: &rusqlite::Connection) -> (r: Result<
    Vec<ExportBookmarkChirho>,
    DbErrorChirho,
>)
    ensures
        r matches Ok(v) ==> spec_bookmark_refs_agree_chirho(v@),
{
    let list = get_all_bookmarks_chirho(conn)?;
    let out = bookmark_exports_chirho(&list);
    assert(spec_bookmark_refs_agree_chirho(out@)) by {
        assert forall|i: int| 0 <= i < out@.len() implies spec_exports_bookmark_chirho(
            #[trigger] out@[i],
            list@[i],
        ) by {}
    }
    Ok(out)
}

/// The export records of every note, most recently updated first. Which
/// notes there are is up to the database; each record's reference spells
/// its own verse.
pub fn export_notes_chirho(conn: &rusqlite::Connection) -> (r: Result<
    Vec<ExportNoteChirho>,
    DbErrorChirho,
>)
    ensures
        r matches Ok(v) ==> spec_note_refs_agree_chirho(v@),
{
    let list = get_all_notes_chirho(conn)?;
    let out = note_exports_chirho(&list);
    assert(spec_note_refs_agree_chirho(out@)) by {
        assert forall|i: int| 0 <= i < out@.len() implies spec_exports_note_chirho(
            #[trigger] out@[i],
            list@[i],
        ) by {}
    }
    Ok(out)
}

/// The name of an export file: "`prefix`_`stamp`.json".
pub fn export_file_name_chirho(prefix: &str, stamp: &str) -> (r: String)
    ensures
        r@ == prefix@ + "_"@ + stamp@ + ".json"@,
{
    let mut t = String::from_str(prefix);
    t.append("_");
    t.append(stamp);
    t.append(".json");
    t
}

// ---------------------------------------------------------------------------
// Import
// ---------------------------------------------------------------------------

/// A highlight entry of a backup, with the fields that could be read.
pub struct ImportHighlightChirho {
    pub book_chirho: Option<String>,
    pub chapter_chirho: Option<i64>,
    pub verse_chirho: Option<i64>,
    pub color_chirho: Option<String>,
    pub module_chirho: Option<String>,
}

/// A bookmark entry of a backup, with the fields that could be read.
pub struct ImportBookmarkChirho {
    pub book_chirho: Option<String>,
    pub chapter_chirho: Option<i64>,
    pub verse_chirho: Option<i64>,
    pub label_chirho: Option<String>,
    pub module_chirho: Option<String>,
}

/// A note entry of a backup, with the fields that could be read.
pub struct ImportNoteChirho {
    pub book_chirho: Option<String>,
    pub chapter_chirho: Option<i64>,
    pub verse_chirho: Option<i64>,
    pub content_chirho: Option<String>,
    pub module_chirho: Option<String>,
}

/// A text field of an entry, or `default` when it is missing.
pub open spec fn spec_or_default_chirho(s: Option<String>, default: Seq<char>) -> Seq<char> {
    match s {
        Some(t) => t@,
        None => default,
    }
}

fn or_default_chirho(s: &Option<String>, default: &str) -> (r: String)
    ensures
        r@ == spec_or_default_chirho(*s, default@),
{
    match s {
        Some(t) => t.clone(),
        None => String::from_str(default),
    }
}

/// What importing a highlight entry stores: module ("KJV" when missing),
/// book, chapter and verse (cut to `i32`), and colour ("yellow" when
/// missing); nothing unless book, chapter and verse are all there.
pub fn highlight_import_args_chirho(e: &ImportHighlightChirho) -> (r: Option<(String, String, i32, i32, String)>)
    ensures
        r is Some <==> (e.book_chirho is Some && e.chapter_chirho is Some && e.verse_chirho is Some),
        r matches Some(a) ==> a.0@ == spec_or_default_chirho(e.module_chirho, "KJV"@) && a.1
            == e.book_chirho->0 && a.2 == e.chapter_chirho->0 as i32 && a.3 == e.verse_chirho->0
            as i32 && a.4@ == spec_or_default_chirho(e.color_chirho, "yellow"@),
{
    match (&e.book_chirho, e.chapter_chirho, e.verse_chirho) {
        (Some(book), Some(chapter), Some(verse)) => Some(
            (
                or_default_chirho(&e.module_chirho, "KJV"),
                book.clone(),
                chapter as i32,
                verse as i32,
                or_default_chirho(&e.color_chirho, "yellow"),
            ),
        ),
        _ => None,
    }
}

/// What importing a bookmark entry stores: module ("KJV" when missing),
/// book, chapter and verse (cut to `i32`), and its label if any; nothing
/// unless book, chapter and verse are all there.
pub fn bookmark_import_args_chirho(e: &ImportBookmarkChirho) -> (r: Option<(String, String, i32, i32, Option<String>)>)
    ensures
        r is Some <==> (e.book_chirho is Some && e.chapter_chirho is Some && e.verse_chirho is Some),
        r matches Some(a) ==> a.0@ == spec_or_default_chirho(e.module_chirho, "KJV"@) && a.1
            == e.book_chirho->0 && a.2 == e.chapter_chirho->0 as i32 && a.3 == e.verse_chirho->0
            as i32 && a.4 == e.label_chirho,
{
    match (&e.book_chirho, e.chapter_chirho, e.verse_chirho) {
        (Some(book), Some(chapter), Some(verse)) => Some(
            (
                or_default_chirho(&e.module_chirho, "KJV"),
                book.clone(),
                chapter as i32,
                verse as i32,
                match &e.label_chirho {
                    Some(l) => Some(l.clone()),
                    None => None,
                },
            ),
        ),
        _ => None,
    }
}

/// What importing a note entry stores: module ("KJV" when missing), book,
/// chapter and verse (cut to `i32`), and content; nothing unless book,
/// chapter, verse and content are all there.
pub fn note_import_args_chirho(e: &ImportNoteChirho) -> (r: Option<(String, String, i32, i32, String)>)
    ensures
        r is Some <==> (e.book_chirho is Some && e.chapter_chirho is Some && e.verse_chirho is Some
            && e.content_chirho is Some),
        r matches Some(a) ==> a.0@ == spec_or_default_chirho(e.module_chirho, "KJV"@) && a.1
            == e.book_chirho->0 && a.2 == e.chapter_chirho->0 as i32 && a.3 == e.verse_chirho->0
            as i32 && a.4 == e.content_chirho->0,
{
    match (&e.book_chirho, e.chapter_chirho, e.verse_chirho, &e.content_chirho) {
        (Some(book), Some(chapter), Some(verse), Some(content)) => Some(
            (
                or_default_chirho(&e.module_chirho, "KJV"),
                book.clone(),
                chapter as i32,
                verse as i32,
                content.clone(),
            ),
        ),
        _ => None,
    }
}

// ---------------------------------------------------------------------------
// Reading a backup
// ---------------------------------------------------------------------------

/// A JSON value, as `serde_json` reads it. A number keeps its value when it
/// is an integer that fits in an `i64` (`Number::as_i64`), and `None`
/// otherwise.
pub enum JsonValueChirho {
    NullChirho,
    BoolChirho(bool),
    NumberChirho(Option<i64>),
    StringChirho(String),
    ArrayChirho(Vec<JsonValueChirho>),
    ObjectChirho(Vec<(String, JsonValueChirho)>),
}

/// A JSON value of `serde_json`.
#[verifier::external_type_specification]
#[verifier::external_body]
pub struct ExJsonValueChirho(serde_json::Value);

/// What `serde_json::from_str` makes of `text`: the value it holds, or
/// `None` when it is not JSON.
pub uninterp spec fn spec_json_parse_chirho(text: Seq<char>) -> Option<JsonValueChirho>;

/// The library's copy of a `serde_json` value, variant for variant (an
/// object's entries in the order of its map).
#[verifier::external_body]
fn json_value_chirho(v: &serde_json::Value) -> (r: JsonValueChirho) {
    match v {
        serde_json::Value::Null => JsonValueChirho::NullChirho,
        serde_json::Value::Bool(b) => JsonValueChirho::BoolChirho(*b),
        serde_json::Value::Number(n) => JsonValueChirho::NumberChirho(n.as_i64()),
        serde_json::Value::String(s) => JsonValueChirho::StringChirho(s.clone()),
        serde_json::Value::Array(a) => JsonValueChirho::ArrayChirho(a.iter().map(json_value_chirho).collect()),
        serde_json::Value::Object(o) => JsonValueChirho::ObjectChirho(
            o.iter().map(|(k, x)| (k.clone(), json_value_chirho(x))).collect(),
        ),
    }
}

/// Parses `text` with `serde_json::from_str` into a `serde_json::Value`
/// and copies it. Claimed: the result is the named function of the text
/// (`spec_json_parse_chirho`), since parsing reads nothing but its argument.
#[verifier::external_body]
fn parse_json_chirho(text: &str) -> (r: Option<JsonValueChirho>)
    ensures
        r == spec_json_parse_chirho(text@),
{
    match serde_json::from_str::<serde_json::Value>(text) {
        Ok(v) => Some(json_value_chirho(&v)),
        Err(_) => None,
    }
}

/// The value of the first entry named `key` of `entries`.
pub open spec fn spec_json_lookup_chirho(entries: Seq<(String, JsonValueChirho)>, key: Seq<char>) -> Option<
    JsonValueChirho,
>
    decreases entries.len(),
{
    if entries.len() == 0 {
        None
    } else if entries[0].0@ == key {
        Some(entries[0].1)
    } else {
        spec_json_lookup_chirho(entries.skip(1), key)
    }
}

/// The member `key` of an object (`Value::get`); `None` for anything else.
pub open spec fn spec_json_get_chirho(v: JsonValueChirho, key: Seq<char>) -> Option<JsonValueChirho> {
    match v {
        JsonValueChirho::ObjectChirho(entries) => spec_json_lookup_chirho(entries@, key),
        _ => None,
    }
}

/// A member read as text (`as_str`), if it is a string.
pub open spec fn spec_json_text_chirho(v: Option<JsonValueChirho>) -> Option<String> {
    match v {
        Some(JsonValueChirho::StringChirho(s)) => Some(s),
        _ => None,
    }
}

/// A member read as an integer (`as_i64`), if it is an integer that fits.
pub open spec fn spec_json_int_chirho(v: Option<JsonValueChirho>) -> Option<i64> {
    match v {
        Some(JsonValueChirho::NumberChirho(n)) => n,
        _ => None,
    }
}

/// The items of member `key` (`get` then `as_array`), none when it is not an
/// array.
pub open spec fn spec_json_items_chirho(v: JsonValueChirho, key: Seq<char>) -> Seq<JsonValueChirho> {
    match spec_json_get_chirho(v, key) {
        Some(JsonValueChirho::ArrayChirho(items)) => items@,
        _ => Seq::empty(),
    }
}

/// The highlight entry an item of a backup holds.
pub open spec fn spec_highlight_entry_chirho(e: JsonValueChirho) -> ImportHighlightChirho {
    ImportHighlightChirho {
        book_chirho: spec_json_text_chirho(spec_json_get_chirho(e, "book"@)),
        chapter_chirho: spec_json_int_chirho(spec_json_get_chirho(e, "chapter"@)),
        verse_chirho: spec_json_int_chirho(spec_json_get_chirho(e, "verse"@)),
        color_chirho: spec_json_text_chirho(spec_json_get_chirho(e, "color"@)),
        module_chirho: spec_json_text_chirho(spec_json_get_chirho(e, "module"@)),
    }
}

/// The bookmark entry an item of a backup holds.
pub open spec fn spec_bookmark_entry_chirho(e: JsonValueChirho) -> ImportBookmarkChirho {
    ImportBookmarkChirho {
        book_chirho: spec_json_text_chirho(spec_json_get_chirho(e, "book"@)),
        chapter_chirho: spec_json_int_chirho(spec_json_get_chirho(e, "chapter"@)),
        verse_chirho: spec_json_int_chirho(spec_json_get_chirho(e, "verse"@)),
        label_chirho: spec_json_text_chirho(spec_json_get_chirho(e, "label"@)),
        module_chirho: spec_json_text_chirho(spec_json_get_chirho(e, "module"@)),
    }
}

/// The note entry an item of a backup holds.
pub open spec fn spec_note_entry_chirho(e: JsonValueChirho) -> ImportNoteChirho {
    ImportNoteChirho {
        book_chirho: spec_json_text_chirho(spec_json_get_chirho(e, "book"@)),
        chapter_chirho: spec_json_int_chirho(spec_json_get_chirho(e, "chapter"@)),
        verse_chirho: spec_json_int_chirho(spec_json_get_chirho(e, "verse"@)),
        content_chirho: spec_json_text_chirho(spec_json_get_chirho(e, "content"@)),
        module_chirho: spec_json_text_chirho(spec_json_get_chirho(e, "module"@)),
    }
}

/// The member `key` of `v` (see `spec_json_get_chirho`).
fn json_get_chirho<'a>(v: &'a JsonValueChirho, key: &str) -> (r: Option<&'a JsonValueChirho>)
    ensures
        match r {
            Some(x) => spec_json_get_chirho(*v, key@) == Some(*x),
            None => spec_json_get_chirho(*v, key@) is None,
        },
{
    match v {
        JsonValueChirho::ObjectChirho(entries) => {
            let mut i: usize = 0;
            assert(entries@.skip(0) =~= entries@);
            while i < entries.len()
                invariant
                    i <= entries.len(),
                    spec_json_get_chirho(*v, key@) == spec_json_lookup_chirho(entries@, key@),
                    spec_json_lookup_chirho(entries@, key@) == spec_json_lookup_chirho(
                        entries@.skip(i as int),
                        key@,
                    ),
                decreases entries.len() - i,
            {
                assert(entries@.skip(i as int).skip(1) =~= entries@.skip(i + 1));
                assert(entries@.skip(i as int)[0] == entries@[i as int]);
                if str_eq_chirho(entries[i].0.as_str(), key) {
                    assert(entries@[i as int].0@ == key@);
                    assert(spec_json_lookup_chirho(entries@.skip(i as int), key@) == Some(entries@[i as int].1));
                    return Some(&entries[i].1);
                }
                i = i + 1;
            }
            assert(entries@.skip(i as int).len() == 0);
            None
        },
        _ => None,
    }
}

/// Member `key` of `v` read as text.
fn json_text_field_chirho(v: &JsonValueChirho, key: &str) -> (r: Option<String>)
    ensures
        r == spec_json_text_chirho(spec_json_get_chirho(*v, key@)),
{
    match json_get_chirho(v, key) {
        Some(JsonValueChirho::StringChirho(s)) => Some(s.clone()),
        _ => None,
    }
}

/// Member `key` of `v` read as an integer.
fn json_int_field_chirho(v: &JsonValueChirho, key: &str) -> (r: Option<i64>)
    ensures
        r == spec_json_int_chirho(spec_json_get_chirho(*v, key@)),
{
    match json_get_chirho(v, key) {
        Some(JsonValueChirho::NumberChirho(n)) => *n,
        _ => None,
    }
}

/// The highlight entry of a backup item (see `spec_highlight_entry_chirho`).
pub fn highlight_entry_of_json_chirho(e: &JsonValueChirho) -> (r: ImportHighlightChirho)
    ensures
        r == spec_highlight_entry_chirho(*e),
{
    ImportHighlightChirho {
        book_chirho: json_text_field_chirho(e, "book"),
        chapter_chirho: json_int_field_chirho(e, "chapter"),
        verse_chirho: json_int_field_chirho(e, "verse"),
        color_chirho: json_text_field_chirho(e, "color"),
        module_chirho: json_text_field_chirho(e, "module"),
    }
}

/// The bookmark entry of a backup item (see `spec_bookmark_entry_chirho`).
pub fn bookmark_entry_of_json_chirho(e: &JsonValueChirho) -> (r: ImportBookmarkChirho)
    ensures
        r == spec_bookmark_entry_chirho(*e),
{
    ImportBookmarkChirho {
        book_chirho: json_text_field_chirho(e, "book"),
        chapter_chirho: json_int_field_chirho(e, "chapter"),
        verse_chirho: json_int_field_chirho(e, "verse"),
        label_chirho: json_text_field_chirho(e, "label"),
        module_chirho: json_text_field_chirho(e, "module"),
    }
}

/// The note entry of a backup item (see `spec_note_entry_chirho`).
pub fn note_entry_of_json_chirho(e: &JsonValueChirho) -> (r: ImportNoteChirho)
    ensures
        r == spec_note_entry_chirho(*e),
{
    ImportNoteChirho {
        book_chirho: json_text_field_chirho(e, "book"),
        chapter_chirho: json_int_field_chirho(e, "chapter"),
        verse_chirho: json_int_field_chirho(e, "verse"),
        content_chirho: json_text_field_chirho(e, "content"),
        module_chirho: json_text_field_chirho(e, "module"),
    }
}

/// The items of member `key` of `v` (see `spec_json_items_chirho`).
fn json_items_chirho<'a>(v: &'a JsonValueChirho, key: &str) -> (r: &'a [JsonValueChirho])
    ensures
        r@ == spec_json_items_chirho(*v, key@),
{
    match json_get_chirho(v, key) {
        Some(JsonValueChirho::ArrayChirho(items)) => items.as_slice(),
        _ => &[],
    }
}

/// The highlight, bookmark and note entries of a backup: the items of its
/// "highlights", "bookmarks" and "notes" arrays (none when a member is
/// missing or not an array), each read field by field.
pub fn backup_entries_of_json_chirho(v: &JsonValueChirho) -> (r: (
    Vec<ImportHighlightChirho>,
    Vec<ImportBookmarkChirho>,
    Vec<ImportNoteChirho>,
))
    ensures
        r.0@ == spec_json_items_chirho(*v, "highlights"@).map_values(
            |e: JsonValueChirho| spec_highlight_entry_chirho(e),
        ),
        r.1@ == spec_json_items_chirho(*v, "bookmarks"@).map_values(
            |e: JsonValueChirho| spec_bookmark_entry_chirho(e),
        ),
        r.2@ == spec_json_items_chirho(*v, "notes"@).map_values(
            |e: JsonValueChirho| spec_note_entry_chirho(e),
        ),
{
    let hs = json_items_chirho(v, "highlights");
    let mut highlights: Vec<ImportHighlightChirho> = Vec::new();
    let mut i: usize = 0;
    while i < hs.len()
        invariant
            i <= hs@.len(),
            highlights@ == hs@.take(i as int).map_values(|e: JsonValueChirho| spec_highlight_entry_chirho(e)),
        decreases hs@.len() - i,
    {
        highlights.push(highlight_entry_of_json_chirho(&hs[i]));
        i = i + 1;
        assert(highlights@ =~= hs@.take(i as int).map_values(|e: JsonValueChirho| spec_highlight_entry_chirho(e)));
    }
    assert(hs@.take(hs@.len() as int) =~= hs@);
    let bs = json_items_chirho(v, "bookmarks");
    let mut bookmarks: Vec<ImportBookmarkChirho> = Vec::new();
    let mut j: usize = 0;
    while j < bs.len()
        invariant
            j <= bs@.len(),
            bookmarks@ == bs@.take(j as int).map_values(|e: JsonValueChirho| spec_bookmark_entry_chirho(e)),
        decreases bs@.len() - j,
    {
        bookmarks.push(bookmark_entry_of_json_chirho(&bs[j]));
        j = j + 1;
        assert(bookmarks@ =~= bs@.take(j as int).map_values(|e: JsonValueChirho| spec_bookmark_entry_chirho(e)));
    }
    assert(bs@.take(bs@.len() as int) =~= bs@);
    let ns = json_items_chirho(v, "notes");
    let mut notes: Vec<ImportNoteChirho> = Vec::new();
    let mut k: usize = 0;
    while k < ns.len()
        invariant
            k <= ns@.len(),
            notes@ == ns@.take(k as int).map_values(|e: JsonValueChirho| spec_note_entry_chirho(e)),
        decreases ns@.len() - k,
    {
        notes.push(note_entry_of_json_chirho(&ns[k]));
        k = k + 1;
        assert(notes@ =~= ns@.take(k as int).map_values(|e: JsonValueChirho| spec_note_entry_chirho(e)));
    }
    assert(ns@.take(ns@.len() as int) =~= ns@);
    (highlights, bookmarks, notes)
}

/// Reads a backup: the entries of the JSON that `text` holds (see
/// `backup_entries_of_json_chirho`), or `None` when it is not JSON.
pub fn parse_backup_chirho(text: &str) -> (r: Option<(
    Vec<ImportHighlightChirho>,
    Vec<ImportBookmarkChirho>,
    Vec<ImportNoteChirho>,
)>)
    ensures
        match spec_json_parse_chirho(text@) {
            None => r is None,
            Some(v) => r matches Some(e) && e.0@ == spec_json_items_chirho(v, "highlights"@).map_values(
                |x: JsonValueChirho| spec_highlight_entry_chirho(x),
            ) && e.1@ == spec_json_items_chirho(v, "bookmarks"@).map_values(
                |x: JsonValueChirho| spec_bookmark_entry_chirho(x),
            ) && e.2@ == spec_json_items_chirho(v, "notes"@).map_values(
                |x: JsonValueChirho| spec_note_entry_chirho(x),
            ),
        },
{
    match parse_json_chirho(text) {
        Some(v) => Some(backup_entries_of_json_chirho(&v)),
        None => None,
    }
}

/// A highlight entry has what an import needs: book, chapter and verse.
pub open spec fn spec_highlight_complete_chirho(e: ImportHighlightChirho) -> bool {
    e.book_chirho is Some && e.chapter_chirho is Some && e.verse_chirho is Some
}

/// A bookmark entry has what an import needs: book, chapter and verse.
pub open spec fn spec_bookmark_complete_chirho(e: ImportBookmarkChirho) -> bool {
    e.book_chirho is Some && e.chapter_chirho is Some && e.verse_chirho is Some
}

/// A note entry has what an import needs: book, chapter, verse and content.
pub open spec fn spec_note_complete_chirho(e: ImportNoteChirho) -> bool {
    e.book_chirho is Some && e.chapter_chirho is Some && e.verse_chirho is Some
        && e.content_chirho is Some
}

/// How many of the outcomes say "stored".
pub open spec fn spec_stored_count_chirho(outcomes: Seq<bool>) -> nat {
    outcomes.filter(|b: bool| b).len()
}

/// Counts the outcomes that say "stored" (see `spec_stored_count_chirho`).
pub fn stored_count_chirho(outcomes: &Vec<bool>) -> (r: usize)
    ensures
        r == spec_stored_count_chirho(outcomes@),
{
    let mut c: usize = 0;
    let mut i: usize = 0;
    while i < outcomes.len()
        invariant
            i <= outcomes.len(),
            c <= i,
            c == outcomes@.take(i as int).filter(|b: bool| b).len(),
        decreases outcomes.len() - i,
    {
        proof {
            assert(outcomes@.take(i + 1) =~= outcomes@.take(i as int).push(outcomes@[i as int]));
            outcomes@.take(i as int).lemma_filter_push(outcomes@[i as int], |b: bool| b);
        }
        if outcomes[i] {
            c = c + 1;
        }
        i = i + 1;
    }
    assert(outcomes@.take(outcomes.len() as int) =~= outcomes@);
    c
}

/// Imports the entries of a backup: each complete highlight (upserted with
/// its colour), bookmark and note (upserted) is stored, through
/// `add_highlight_with_color_chirho`, `add_bookmark_chirho` and
/// `save_note_chirho` with the values that `highlight_import_args_chirho`,
/// `bookmark_import_args_chirho` and `note_import_args_chirho` give, in
/// order; incomplete entries are passed over. Answers how many of each kind
/// were stored: the count of "stored" among one outcome per complete entry.
/// Whether the database stores an entry is up to it.
pub fn import_entries_chirho(
    conn: &rusqlite::Connection,
    highlights: &Vec<ImportHighlightChirho>,
    bookmarks: &Vec<ImportBookmarkChirho>,
    notes: &Vec<ImportNoteChirho>,
) -> (r: (usize, usize, usize))
    ensures
        exists|oh: Seq<bool>, ob: Seq<bool>, on: Seq<bool>|
            oh.len() == highlights@.filter(|e: ImportHighlightChirho| spec_highlight_complete_chirho(e)).len()
            && ob.len() == bookmarks@.filter(|e: ImportBookmarkChirho| spec_bookmark_complete_chirho(e)).len()
            && on.len() == notes@.filter(|e: ImportNoteChirho| spec_note_complete_chirho(e)).len()
            && r == (#[trigger] spec_stored_count_chirho(oh) as usize, #[trigger] spec_stored_count_chirho(ob) as usize,
            #[trigger] spec_stored_count_chirho(on) as usize),
{
    let mut oh: Vec<bool> = Vec::new();
    let mut i: usize = 0;
    while i < highlights.len()
        invariant
            i <= highlights.len(),
            oh.len() == highlights@.take(i as int).filter(
                |e: ImportHighlightChirho| spec_highlight_complete_chirho(e),
            ).len(),
        decreases highlights.len() - i,
    {
        proof {
            assert(highlights@.take(i + 1) =~= highlights@.take(i as int).push(highlights@[i as int]));
            highlights@.take(i as int).lemma_filter_push(
                highlights@[i as int],
                |e: ImportHighlightChirho| spec_highlight_complete_chirho(e),
            );
        }
        match highlight_import_args_chirho(&highlights[i]) {
            Some((module, book, chapter, verse, color)) => {
                let stored = add_highlight_with_color_chirho(
                    conn,
                    module.as_str(),
                    book.as_str(),
                    chapter,
                    verse,
                    color.as_str(),
                ).is_ok();
                oh.push(stored);
            },
            None => {},
        }
        i = i + 1;
    }
    let mut ob: Vec<bool> = Vec::new();
    let mut j: usize = 0;
    while j < bookmarks.len()
        invariant
            j <= bookmarks.len(),
            ob.len() == bookmarks@.take(j as int).filter(
                |e: ImportBookmarkChirho| spec_bookmark_complete_chirho(e),
            ).len(),
        decreases bookmarks.len() - j,
    {
        proof {
            assert(bookmarks@.take(j + 1) =~= bookmarks@.take(j as int).push(bookmarks@[j as int]));
            bookmarks@.take(j as int).lemma_filter_push(
                bookmarks@[j as int],
                |e: ImportBookmarkChirho| spec_bookmark_complete_chirho(e),
            );
        }
        match bookmark_import_args_chirho(&bookmarks[j]) {
            Some((module, book, chapter, verse, label)) => {
                let stored = match &label {
                    Some(l) => add_bookmark_chirho(conn, module.as_str(), book.as_str(), chapter, verse, Some(l.as_str())),
                    None => add_bookmark_chirho(conn, module.as_str(), book.as_str(), chapter, verse, None),
                };
                ob.push(stored.is_ok());
            },
            None => {},
        }
        j = j + 1;
    }
    let mut on: Vec<bool> = Vec::new();
    let mut k: usize = 0;
    while k < notes.len()
        invariant
            k <= notes.len(),
            on.len() == notes@.take(k as int).filter(|e: ImportNoteChirho| spec_note_complete_chirho(e)).len(),
        decreases notes.len() - k,
    {
        proof {
            assert(notes@.take(k + 1) =~= notes@.take(k as int).push(notes@[k as int]));
            notes@.take(k as int).lemma_filter_push(
                notes@[k as int],
                |e: ImportNoteChirho| spec_note_complete_chirho(e),
            );
        }
        match note_import_args_chirho(&notes[k]) {
            Some((module, book, chapter, verse, content)) => {
                let stored = save_note_chirho(conn, module.as_str(), book.as_str(), chapter, verse, content.as_str()).is_ok();
                on.push(stored);
            },
            None => {},
        }
        k = k + 1;
    }
    assert(highlights@.take(highlights.len() as int) =~= highlights@);
    assert(bookmarks@.take(bookmarks.len() as int) =~= bookmarks@);
    assert(notes@.take(notes.len() as int) =~= notes@);
    let r = (stored_count_chirho(&oh), stored_count_chirho(&ob), stored_count_chirho(&on));
    assert(r == (spec_stored_count_chirho(oh@) as usize, spec_stored_count_chirho(ob@) as usize,
        spec_stored_count_chirho(on@) as usize));
    r
}

// ---------------------------------------------------------------------------
// Writing an export
// ---------------------------------------------------------------------------

/// Whether `v` is the JSON string `s`.
pub open spec fn spec_json_string_is_chirho(v: JsonValueChirho, s: Seq<char>) -> bool {
    v matches JsonValueChirho::StringChirho(t) && t@ == s
}

/// Whether `v` is the JSON integer `n`.
pub open spec fn spec_json_int_is_chirho(v: JsonValueChirho, n: int) -> bool {
    v matches JsonValueChirho::NumberChirho(Some(m)) && m == n
}

/// Whether `v` is the JSON string of `s`, or `null` when there is none.
pub open spec fn spec_json_opt_string_is_chirho(v: JsonValueChirho, s: Option<String>) -> bool {
    match s {
        Some(t) => spec_json_string_is_chirho(v, t@),
        None => v is NullChirho,
    }
}

fn opt_string_json_chirho(s: &Option<String>) -> (r: JsonValueChirho)
    ensures
        spec_json_opt_string_is_chirho(r, *s),
{
    match s {
        Some(t) => JsonValueChirho::StringChirho(t.clone()),
        None => JsonValueChirho::NullChirho,
    }
}

/// Whether `v` is the JSON record of a highlight in an export: an object with
/// the members "reference", "book", "chapter", "verse", "color", "module", in that order.
pub open spec fn spec_highlight_json_chirho(v: JsonValueChirho, x: ExportHighlightChirho) -> bool {
    &&& v matches JsonValueChirho::ObjectChirho(es)
    &&& {
        let es = v->ObjectChirho_0;
        &&& es.len() == 6
        &&& es@[0].0@ == "reference"@
        &&& spec_json_string_is_chirho(es@[0].1, x.reference_chirho@)
        &&& es@[1].0@ == "book"@
        &&& spec_json_string_is_chirho(es@[1].1, x.book_chirho@)
        &&& es@[2].0@ == "chapter"@
        &&& spec_json_int_is_chirho(es@[2].1, x.chapter_chirho as int)
        &&& es@[3].0@ == "verse"@
        &&& spec_json_int_is_chirho(es@[3].1, x.verse_chirho as int)
        &&& es@[4].0@ == "color"@
        &&& spec_json_string_is_chirho(es@[4].1, x.color_chirho@)
        &&& es@[5].0@ == "module"@
        &&& spec_json_string_is_chirho(es@[5].1, x.module_chirho@)
    }
}

/// The JSON record of a highlight (see `spec_highlight_json_chirho`).
pub fn highlight_json_chirho(x: &ExportHighlightChirho) -> (r: JsonValueChirho)
    ensures
        spec_highlight_json_chirho(r, *x),
{
    let mut es: Vec<(String, JsonValueChirho)> = Vec::new();
    es.push((String::from_str("reference"), JsonValueChirho::StringChirho(x.reference_chirho.clone())));
    es.push((String::from_str("book"), JsonValueChirho::StringChirho(x.book_chirho.clone())));
    es.push((String::from_str("chapter"), JsonValueChirho::NumberChirho(Some(x.chapter_chirho as i64))));
    es.push((String::from_str("verse"), JsonValueChirho::NumberChirho(Some(x.verse_chirho as i64))));
    es.push((String::from_str("color"), JsonValueChirho::StringChirho(x.color_chirho.clone())));
    es.push((String::from_str("module"), JsonValueChirho::StringChirho(x.module_chirho.clone())));
    JsonValueChirho::ObjectChirho(es)
}

/// Whether `v` is the JSON array of the records of `xs`, in order.
pub open spec fn spec_highlights_json_chirho(v: JsonValueChirho, xs: Seq<ExportHighlightChirho>) -> bool {
    &&& v matches JsonValueChirho::ArrayChirho(items)
    &&& v->ArrayChirho_0.len() == xs.len()
    &&& forall|i: int| 0 <= i < xs.len() ==> spec_highlight_json_chirho(#[trigger] v->ArrayChirho_0@[i], xs[i])
}

/// The JSON array of the records of `xs` (see `spec_highlights_json_chirho`).
pub fn highlights_json_chirho(xs: &Vec<ExportHighlightChirho>) -> (r: JsonValueChirho)
    ensures
        spec_highlights_json_chirho(r, xs@),
{
    let mut items: Vec<JsonValueChirho> = Vec::new();
    let mut i: usize = 0;
    while i < xs.len()
        invariant
            i <= xs.len(),
            items.len() == i,
            forall|j: int| 0 <= j < i ==> spec_highlight_json_chirho(#[trigger] items@[j], xs@[j]),
        decreases xs.len() - i,
    {
        items.push(highlight_json_chirho(&xs[i]));
        i = i + 1;
    }
    JsonValueChirho::ArrayChirho(items)
}

/// Whether `v` is the JSON record of a bookmark in an export: an object with
/// the members "reference", "book", "chapter", "verse", "label", "module", in that order.
pub open spec fn spec_bookmark_json_chirho(v: JsonValueChirho, x: ExportBookmarkChirho) -> bool {
    &&& v matches JsonValueChirho::ObjectChirho(es)
    &&& {
        let es = v->ObjectChirho_0;
        &&& es.len() == 6
        &&& es@[0].0@ == "reference"@
        &&& spec_json_string_is_chirho(es@[0].1, x.reference_chirho@)
        &&& es@[1].0@ == "book"@
        &&& spec_json_string_is_chirho(es@[1].1, x.book_chirho@)
        &&& es@[2].0@ == "chapter"@
        &&& spec_json_int_is_chirho(es@[2].1, x.chapter_chirho as int)
        &&& es@[3].0@ == "verse"@
        &&& spec_json_int_is_chirho(es@[3].1, x.verse_chirho as int)
        &&& es@[4].0@ == "label"@
        &&& spec_json_opt_string_is_chirho(es@[4].1, x.label_chirho)
        &&& es@[5].0@ == "module"@
        &&& spec_json_string_is_chirho(es@[5].1, x.module_chirho@)
    }
}

/// The JSON record of a bookmark (see `spec_bookmark_json_chirho`).
pub fn bookmark_json_chirho(x: &ExportBookmarkChirho) -> (r: JsonValueChirho)
    ensures
        spec_bookmark_json_chirho(r, *x),
{
    let mut es: Vec<(String, JsonValueChirho)> = Vec::new();
    es.push((String::from_str("reference"), JsonValueChirho::StringChirho(x.reference_chirho.clone())));
    es.push((String::from_str("book"), JsonValueChirho::StringChirho(x.book_chirho.clone())));
    es.push((String::from_str("chapter"), JsonValueChirho::NumberChirho(Some(x.chapter_chirho as i64))));
    es.push((String::from_str("verse"), JsonValueChirho::NumberChirho(Some(x.verse_chirho as i64))));
    es.push((String::from_str("label"), opt_string_json_chirho(&x.label_chirho)));
    es.push((String::from_str("module"), JsonValueChirho::StringChirho(x.module_chirho.clone())));
    JsonValueChirho::ObjectChirho(es)
}

/// Whether `v` is the JSON array of the records of `xs`, in order.
pub open spec fn spec_bookmarks_json_chirho(v: JsonValueChirho, xs: Seq<ExportBookmarkChirho>) -> bool {
    &&& v matches JsonValueChirho::ArrayChirho(items)
    &&& v->ArrayChirho_0.len() == xs.len()
    &&& forall|i: int| 0 <= i < xs.len() ==> spec_bookmark_json_chirho(#[trigger] v->ArrayChirho_0@[i], xs[i])
}

/// The JSON array of the records of `xs` (see `spec_bookmarks_json_chirho`).
pub fn bookmarks_json_chirho(xs: &Vec<ExportBookmarkChirho>) -> (r: JsonValueChirho)
    ensures
        spec_bookmarks_json_chirho(r, xs@),
{
    let mut items: Vec<JsonValueChirho> = Vec::new();
    let mut i: usize = 0;
    while i < xs.len()
        invariant
            i <= xs.len(),
            items.len() == i,
            forall|j: int| 0 <= j < i ==> spec_bookmark_json_chirho(#[trigger] items@[j], xs@[j]),
        decreases xs.len() - i,
    {
        items.push(bookmark_json_chirho(&xs[i]));
        i = i + 1;
    }
    JsonValueChirho::ArrayChirho(items)
}

/// Whether `v` is the JSON record of a note in an export: an object with
/// the members "reference", "book", "chapter", "verse", "content", "module", "created_at", "updated_at", in that order.
pub open spec fn spec_note_json_chirho(v: JsonValueChirho, x: ExportNoteChirho) -> bool {
    &&& v matches JsonValueChirho::ObjectChirho(es)
    &&& {
        let es = v->ObjectChirho_0;
        &&& es.len() == 8
        &&& es@[0].0@ == "reference"@
        &&& spec_json_string_is_chirho(es@[0].1, x.reference_chirho@)
        &&& es@[1].0@ == "book"@
        &&& spec_json_string_is_chirho(es@[1].1, x.book_chirho@)
        &&& es@[2].0@ == "chapter"@
        &&& spec_json_int_is_chirho(es@[2].1, x.chapter_chirho as int)
        &&& es@[3].0@ == "verse"@
        &&& spec_json_int_is_chirho(es@[3].1, x.verse_chirho as int)
        &&& es@[4].0@ == "content"@
        &&& spec_json_string_is_chirho(es@[4].1, x.content_chirho@)
        &&& es@[5].0@ == "module"@
        &&& spec_json_string_is_chirho(es@[5].1, x.module_chirho@)
        &&& es@[6].0@ == "created_at"@
        &&& spec_json_string_is_chirho(es@[6].1, x.created_at_chirho@)
        &&& es@[7].0@ == "updated_at"@
        &&& spec_json_string_is_chirho(es@[7].1, x.updated_at_chirho@)
    }
}

/// The JSON record of a note (see `spec_note_json_chirho`).
pub fn note_json_chirho(x: &ExportNoteChirho) -> (r: JsonValueChirho)
    ensures
        spec_note_json_chirho(r, *x),
{
    let mut es: Vec<(String, JsonValueChirho)> = Vec::new();
    es.push((String::from_str("reference"), JsonValueChirho::StringChirho(x.reference_chirho.clone())));
    es.push((String::from_str("book"), JsonValueChirho::StringChirho(x.book_chirho.clone())));
    es.push((String::from_str("chapter"), JsonValueChirho::NumberChirho(Some(x.chapter_chirho as i64))));
    es.push((String::from_str("verse"), JsonValueChirho::NumberChirho(Some(x.verse_chirho as i64))));
    es.push((String::from_str("content"), JsonValueChirho::StringChirho(x.content_chirho.clone())));
    es.push((String::from_str("module"), JsonValueChirho::StringChirho(x.module_chirho.clone())));
    es.push((String::from_str("created_at"), JsonValueChirho::StringChirho(x.created_at_chirho.clone())));
    es.push((String::from_str("updated_at"), JsonValueChirho::StringChirho(x.updated_at_chirho.clone())));
    JsonValueChirho::ObjectChirho(es)
}

/// Whether `v` is the JSON array of the records of `xs`, in order.
pub open spec fn spec_notes_json_chirho(v: JsonValueChirho, xs: Seq<ExportNoteChirho>) -> bool {
    &&& v matches JsonValueChirho::ArrayChirho(items)
    &&& v->ArrayChirho_0.len() == xs.len()
    &&& forall|i: int| 0 <= i < xs.len() ==> spec_note_json_chirho(#[trigger] v->ArrayChirho_0@[i], xs[i])
}

/// The JSON array of the records of `xs` (see `spec_notes_json_chirho`).
pub fn notes_json_chirho(xs: &Vec<ExportNoteChirho>) -> (r: JsonValueChirho)
    ensures
        spec_notes_json_chirho(r, xs@),
{
    let mut items: Vec<JsonValueChirho> = Vec::new();
    let mut i: usize = 0;
    while i < xs.len()
        invariant
            i <= xs.len(),
            items.len() == i,
            forall|j: int| 0 <= j < i ==> spec_note_json_chirho(#[trigger] items@[j], xs@[j]),
        decreases xs.len() - i,
    {
        items.push(note_json_chirho(&xs[i]));
        i = i + 1;
    }
    JsonValueChirho::ArrayChirho(items)
}

/// The name of the application in a backup's `export_info`.
pub const EXPORT_APP_NAME_CHIRHO: &'static str = "Codex Lux Chirho";

/// Whether `v` is a full backup: an object with the members
/// "export_info" (an object of "app" `EXPORT_APP_NAME_CHIRHO`, "version" and
/// "exported_at"), "highlights", "bookmarks" and "notes", in that order.
pub open spec fn spec_backup_json_chirho(
    v: JsonValueChirho,
    highlights: Seq<ExportHighlightChirho>,
    bookmarks: Seq<ExportBookmarkChirho>,
    notes: Seq<ExportNoteChirho>,
    version: Seq<char>,
    exported_at: Seq<char>,
) -> bool {
    &&& v matches JsonValueChirho::ObjectChirho(es)
    &&& {
        let es = v->ObjectChirho_0;
        &&& es.len() == 4
        &&& es@[0].0@ == "export_info"@
        &&& es@[0].1 matches JsonValueChirho::ObjectChirho(info)
        &&& {
            let info = es@[0].1->ObjectChirho_0;
            &&& info.len() == 3
            &&& info@[0].0@ == "app"@
            &&& spec_json_string_is_chirho(info@[0].1, EXPORT_APP_NAME_CHIRHO@)
            &&& info@[1].0@ == "version"@
            &&& spec_json_string_is_chirho(info@[1].1, version)
            &&& info@[2].0@ == "exported_at"@
            &&& spec_json_string_is_chirho(info@[2].1, exported_at)
        }
        &&& es@[1].0@ == "highlights"@
        &&& spec_highlights_json_chirho(es@[1].1, highlights)
        &&& es@[2].0@ == "bookmarks"@
        &&& spec_bookmarks_json_chirho(es@[2].1, bookmarks)
        &&& es@[3].0@ == "notes"@
        &&& spec_notes_json_chirho(es@[3].1, notes)
    }
}

/// The full backup of the given records (see `spec_backup_json_chirho`).
pub fn backup_json_chirho(
    highlights: &Vec<ExportHighlightChirho>,
    bookmarks: &Vec<ExportBookmarkChirho>,
    notes: &Vec<ExportNoteChirho>,
    version: &str,
    exported_at: &str,
) -> (r: JsonValueChirho)
    ensures
        spec_backup_json_chirho(r, highlights@, bookmarks@, notes@, version@, exported_at@),
{
    let mut info: Vec<(String, JsonValueChirho)> = Vec::new();
    info.push((String::from_str("app"), JsonValueChirho::StringChirho(String::from_str(EXPORT_APP_NAME_CHIRHO))));
    info.push((String::from_str("version"), JsonValueChirho::StringChirho(String::from_str(version))));
    info.push((String::from_str("exported_at"), JsonValueChirho::StringChirho(String::from_str(exported_at))));
    let mut es: Vec<(String, JsonValueChirho)> = Vec::new();
    es.push((String::from_str("export_info"), JsonValueChirho::ObjectChirho(info)));
    es.push((String::from_str("highlights"), highlights_json_chirho(highlights)));
    es.push((String::from_str("bookmarks"), bookmarks_json_chirho(bookmarks)));
    es.push((String::from_str("notes"), notes_json_chirho(notes)));
    JsonValueChirho::ObjectChirho(es)
}

/// What `serde_json::to_string_pretty` writes for the `serde_json` copy of
/// `v`, or `None` when it fails.
pub uninterp spec fn spec_json_pretty_chirho(v: JsonValueChirho) -> Option<Seq<char>>;

/// The `serde_json` copy of a value, variant for variant (a number without
/// an `i64` value becomes `null`).
#[verifier::external_body]
fn serde_value_chirho(v: &JsonValueChirho) -> (r: serde_json::Value) {
    match v {
        JsonValueChirho::NullChirho => serde_json::Value::Null,
        JsonValueChirho::BoolChirho(b) => serde_json::Value::Bool(*b),
        JsonValueChirho::NumberChirho(Some(n)) => serde_json::Value::from(*n),
        JsonValueChirho::NumberChirho(None) => serde_json::Value::Null,
        JsonValueChirho::StringChirho(s) => serde_json::Value::String(s.clone()),
        JsonValueChirho::ArrayChirho(a) => serde_json::Value::Array(a.iter().map(serde_value_chirho).collect()),
        JsonValueChirho::ObjectChirho(o) => serde_json::Value::Object(
            o.iter().map(|(k, x)| (k.clone(), serde_value_chirho(x))).collect(),
        ),
    }
}

/// Writes `v` as pretty JSON with `serde_json::to_string_pretty` on its
/// `serde_json` copy. Claimed: the result is the named function of `v`
/// (`spec_json_pretty_chirho`), since writing reads nothing but its
/// argument.
#[verifier::external_body]
fn json_pretty_text_chirho(v: &JsonValueChirho) -> (r: Option<String>)
    ensures
        match r {
            Some(t) => spec_json_pretty_chirho(*v) == Some(t@),
            None => spec_json_pretty_chirho(*v) is None,
        },
{
    serde_json::to_string_pretty(&serde_value_chirho(v)).ok()
}

/// Whether `r` is what writing `v` as pretty JSON gives.
pub open spec fn spec_pretty_text_is_chirho(v: JsonValueChirho, r: Option<String>) -> bool {
    match r {
        Some(t) => spec_json_pretty_chirho(v) == Some(t@),
        None => spec_json_pretty_chirho(v) is None,
    }
}

/// The text of a highlights export: the pretty JSON of their records.
pub fn highlights_export_text_chirho(highlights: &Vec<ExportHighlightChirho>) -> (r: Option<String>)
    ensures
        exists|v: JsonValueChirho| spec_highlights_json_chirho(v, highlights@) && #[trigger] spec_pretty_text_is_chirho(v, r),
{
    let v = highlights_json_chirho(highlights);
    let r = json_pretty_text_chirho(&v);
    assert(spec_pretty_text_is_chirho(v, r));
    r
}

/// The text of a bookmarks export: the pretty JSON of their records.
pub fn bookmarks_export_text_chirho(bookmarks: &Vec<ExportBookmarkChirho>) -> (r: Option<String>)
    ensures
        exists|v: JsonValueChirho| spec_bookmarks_json_chirho(v, bookmarks@) && #[trigger] spec_pretty_text_is_chirho(v, r),
{
    let v = bookmarks_json_chirho(bookmarks);
    let r = json_pretty_text_chirho(&v);
    assert(spec_pretty_text_is_chirho(v, r));
    r
}

/// The text of a notes export: the pretty JSON of their records.
pub fn notes_export_text_chirho(notes: &Vec<ExportNoteChirho>) -> (r: Option<String>)
    ensures
        exists|v: JsonValueChirho| spec_notes_json_chirho(v, notes@) && #[trigger] spec_pretty_text_is_chirho(v, r),
{
    let v = notes_json_chirho(notes);
    let r = json_pretty_text_chirho(&v);
    assert(spec_pretty_text_is_chirho(v, r));
    r
}

/// The text of a full backup: the pretty JSON of `backup_json_chirho`.
pub fn backup_export_text_chirho(
    highlights: &Vec<ExportHighlightChirho>,
    bookmarks: &Vec<ExportBookmarkChirho>,
    notes: &Vec<ExportNoteChirho>,
    version: &str,
    exported_at: &str,
) -> (r: Option<String>)
    ensures
        exists|v: JsonValueChirho|
            spec_backup_json_chirho(v, highlights@, bookmarks@, notes@, version@, exported_at@)
                && #[trigger] spec_pretty_text_is_chirho(v, r),
{
    let v = backup_json_chirho(highlights, bookmarks, notes, version, exported_at);
    let r = json_pretty_text_chirho(&v);
    assert(spec_pretty_text_is_chirho(v, r));
    r
}

// ---------------------------------------------------------------------------
// Backup files
// ---------------------------------------------------------------------------

/// `a` sorts before `b`: character by character (by code point, which is
/// also the order of their UTF-8 bytes), a proper prefix first.
pub open spec fn spec_lex_lt_chirho(a: Seq<char>, b: Seq<char>) -> bool
    decreases a.len(),
{
    if a.len() == 0 {
        b.len() > 0
    } else if b.len() == 0 {
        false
    } else if a[0] != b[0] {
        a[0] < b[0]
    } else {
        spec_lex_lt_chirho(a.skip(1), b.skip(1))
    }
}

/// `a` sorts before `b` or equals it.
pub open spec fn spec_lex_le_chirho(a: Seq<char>, b: Seq<char>) -> bool {
    a == b || spec_lex_lt_chirho(a, b)
}

proof fn lemma_lex_irreflexive_chirho(a: Seq<char>)
    ensures
        !spec_lex_lt_chirho(a, a),
    decreases a.len(),
{
    if a.len() > 0 {
        lemma_lex_irreflexive_chirho(a.skip(1));
    }
}

proof fn lemma_lex_total_chirho(a: Seq<char>, b: Seq<char>)
    ensures
        a == b || spec_lex_lt_chirho(a, b) || spec_lex_lt_chirho(b, a),
    decreases a.len(),
{
    if a.len() > 0 && b.len() > 0 && a[0] == b[0] {
        lemma_lex_total_chirho(a.skip(1), b.skip(1));
        if a.skip(1) == b.skip(1) {
            assert(a =~= seq![a[0]] + a.skip(1));
            assert(b =~= seq![b[0]] + b.skip(1));
        }
    } else if a.len() == 0 && b.len() == 0 {
        assert(a =~= b);
    }
}

proof fn lemma_lex_transitive_chirho(a: Seq<char>, b: Seq<char>, c: Seq<char>)
    requires
        spec_lex_lt_chirho(a, b),
        spec_lex_lt_chirho(b, c),
    ensures
        spec_lex_lt_chirho(a, c),
    decreases a.len(),
{
    if a.len() > 0 && b.len() > 0 && c.len() > 0 && a[0] == b[0] && b[0] == c[0] {
        lemma_lex_transitive_chirho(a.skip(1), b.skip(1), c.skip(1));
    }
}

/// Whether `a` sorts before `b` (see `spec_lex_lt_chirho`).
fn lex_lt_chirho(a: &Vec<char>, b: &Vec<char>) -> (r: bool)
    ensures
        r == spec_lex_lt_chirho(a@, b@),
{
    let mut i: usize = 0;
    assert(a@.skip(0) =~= a@);
    assert(b@.skip(0) =~= b@);
    while i < a.len() && i < b.len()
        invariant
            i <= a@.len(),
            i <= b@.len(),
            spec_lex_lt_chirho(a@, b@) == spec_lex_lt_chirho(a@.skip(i as int), b@.skip(i as int)),
        decreases a@.len() - i,
    {
        assert(a@.skip(i as int)[0] == a@[i as int]);
        assert(b@.skip(i as int)[0] == b@[i as int]);
        if a[i] != b[i] {
            return a[i] < b[i];
        }
        assert(a@.skip(i as int).skip(1) =~= a@.skip(i + 1));
        assert(b@.skip(i as int).skip(1) =~= b@.skip(i + 1));
        i = i + 1;
    }
    i == a.len() && i < b.len()
}

/// Whether a file name is a full backup: "codex_lux_backup_..." ending in
/// ".json".
pub open spec fn spec_is_backup_name_chirho(name: Seq<char>) -> bool {
    spec_starts_with_chirho(name, "codex_lux_backup_"@) && spec_occurs_at_chirho(
        name,
        ".json"@,
        name.len() - 5,
    )
}

/// Keeping the names of backups.
pub open spec fn spec_backup_fn_chirho() -> spec_fn(String) -> Option<Seq<char>> {
    |s: String| if spec_is_backup_name_chirho(s@) {
        Some(s@)
    } else {
        None
    }
}

/// Whether `s` is in descending order.
pub open spec fn spec_descending_chirho(s: Seq<Seq<char>>) -> bool {
    forall|i: int, j: int| 0 <= i < j < s.len() ==> spec_lex_le_chirho(#[trigger] s[j], #[trigger] s[i])
}

/// The backups among the file names of the export directory, newest (last
/// in name order) first.
pub fn select_backup_files_chirho(names: &Vec<String>) -> (r: Vec<String>)
    ensures
        spec_descending_chirho(r@.map_values(|s: String| s@)),
        r@.map_values(|s: String| s@).to_multiset() == names@.filter_map(spec_backup_fn_chirho()).to_multiset(),
{
    let prefix = chars_of_chirho("codex_lux_backup_");
    let suffix = chars_of_chirho(".json");
    let mut out: Vec<String> = Vec::new();
    let mut i: usize = 0;
    assert(names@.take(0) =~= Seq::<String>::empty());
    assert(out@.map_values(|s: String| s@) =~= Seq::<Seq<char>>::empty());
    while i < names.len()
        invariant
            i <= names.len(),
            prefix@ == "codex_lux_backup_"@,
            suffix@ == ".json"@,
            spec_descending_chirho(out@.map_values(|s: String| s@)),
            out@.map_values(|s: String| s@).to_multiset() == names@.take(i as int).filter_map(
                spec_backup_fn_chirho(),
            ).to_multiset(),
        decreases names.len() - i,
    {
        proof {
            names@.lemma_filter_map_take_succ(spec_backup_fn_chirho(), i as int);
        }
        let name = chars_of_chirho(names[i].as_str());
        let is_backup = starts_with_chirho(&name, &prefix) && name.len() >= 5 && occurs_at_chirho(
            &name,
            &suffix,
            name.len() - 5,
        );
        proof {
            if name@.len() < 5 {
                assert(!spec_occurs_at_chirho(name@, ".json"@, name@.len() - 5));
            }
        }
        if is_backup {
            let ghost before = out@.map_values(|s: String| s@);
            // The first place where the name sorts above what is there.
            let mut p: usize = 0;
            while p < out.len() && !lex_lt_chirho(&chars_of_chirho(out[p].as_str()), &name)
                invariant
                    p <= out@.len(),
                    before == out@.map_values(|s: String| s@),
                    forall|k: int| 0 <= k < p ==> !spec_lex_lt_chirho(#[trigger] before[k], name@),
                decreases out@.len() - p,
            {
                p = p + 1;
            }
            out.insert(p, names[i].clone());
            proof {
                let after = out@.map_values(|s: String| s@);
                assert(after =~= before.take(p as int) + seq![name@] + before.skip(p as int));
                vstd::seq_lib::lemma_multiset_commutative(before.take(p as int) + seq![name@], before.skip(p as int));
                vstd::seq_lib::lemma_multiset_commutative(before.take(p as int), seq![name@]);
                vstd::seq_lib::lemma_multiset_commutative(before.take(p as int), before.skip(p as int));
                assert(before =~= before.take(p as int) + before.skip(p as int));
                assert(before.push(name@) =~= before + seq![name@]);
                vstd::seq_lib::lemma_multiset_commutative(before, seq![name@]);
                vstd::seq_lib::lemma_multiset_commutative(
                    names@.take(i as int).filter_map(spec_backup_fn_chirho()),
                    seq![name@],
                );
                assert(names@[i as int]@ == name@);
                assert forall|a: int, b: int| 0 <= a < b < after.len() implies spec_lex_le_chirho(
                    #[trigger] after[b],
                    #[trigger] after[a],
                ) by {
                    if b < p {
                        assert(after[a] == before[a] && after[b] == before[b]);
                    } else if b == p {
                        assert(after[a] == before[a]);
                        lemma_lex_total_chirho(before[a], name@);
                    } else if a < p {
                        assert(after[a] == before[a] && after[b] == before[b - 1]);
                    } else if a == p {
                        assert(after[b] == before[b - 1]);
                        assert(spec_lex_lt_chirho(before[p as int], name@));
                        if b - 1 > p {
                            assert(spec_lex_le_chirho(before[b - 1], before[p as int]));
                            if before[b - 1] != before[p as int] {
                                lemma_lex_transitive_chirho(before[b - 1], before[p as int], name@);
                            }
                        }
                    } else {
                        assert(after[a] == before[a - 1] && after[b] == before[b - 1]);
                    }
                }
            }
        }
        i = i + 1;
    }
    assert(names@.take(names.len() as int) =~= names@);
    out
}

} // verus!
