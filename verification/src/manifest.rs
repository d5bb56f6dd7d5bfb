//! Adding the *bindings* and *windows* dependencies to the package's `Cargo.toml`.
//!
//! The TOML work is done by `toml_edit`; its documents are opaque here and are seen
//! through names: the items a document holds, each under the path of keys that leads to
//! it from the root; the order in which each table keeps its keys; whether its root is a
//! table; and the text it renders to.

use vstd::prelude::*;
use crate::data::WINDOWS_RS_VERSION;

verus! {

#[verifier::external_type_specification]
#[verifier::external_body]
pub struct ExTomlDocument(toml_edit::Document);

/// What a document holds under a path of keys. The items inside a table or an inline
/// table stand under their own, longer paths; arrays and everything else are leaves.
pub enum TomlItem {
    /// A table (`[name]` or an implicit parent of one).
    Table,
    /// An inline table, `{ ... }`.
    InlineTable,
    /// A string value with these characters.
    String(Seq<char>),
    /// Any other value.
    Other,
}

/// Parsing `text` as a TOML document: the items it holds, each under its path of keys,
/// and for the path of each table and inline table its keys in order; or the message
/// of the parse error.
pub uninterp spec fn toml_parse(text: Seq<char>) -> Result<(Map<Seq<Seq<char>>, TomlItem>, Map<Seq<Seq<char>>, Seq<Seq<char>>>), Seq<char>>;

/// The items a document holds, each under its path of keys.
pub uninterp spec fn document_items(doc: toml_edit::Document) -> Map<Seq<Seq<char>>, TomlItem>;

/// For the path of each table and inline table of a document, its keys in the order
/// the document keeps them (the order they render in).
pub uninterp spec fn table_keys(doc: toml_edit::Document) -> Map<Seq<Seq<char>>, Seq<Seq<char>>>;

/// Whether the document's root is a table, as it is for every parsed document.
pub uninterp spec fn has_table_root(doc: toml_edit::Document) -> bool;

/// The text a document renders to, tables in their original order.
pub uninterp spec fn rendered_document(doc: toml_edit::Document) -> Seq<char>;

/// A key that TOML accepts without quotes: letters, digits, `-` and `_`.
pub open spec fn is_bare_key(key: Seq<char>) -> bool {
    &&& key.len() > 0
    &&& forall|i: int| 0 <= i < key.len() ==> {
        let c = #[trigger] key[i];
        ('A' <= c && c <= 'Z') || ('a' <= c && c <= 'z') || ('0' <= c && c <= '9') || c == '-' || c == '_'
    }
}

/// Text that a TOML basic string holds as it is: no quotes, no backslash, no control
/// character below U+0020.
pub open spec fn is_plain_string(s: Seq<char>) -> bool {
    forall|i: int| 0 <= i < s.len() ==> {
        let c = #[trigger] s[i];
        '\u{20}' <= c && c != '"' && c != '\'' && c != '\\'
    }
}

/// There is a table under `path`.
pub open spec fn is_table_at(items: Map<Seq<Seq<char>>, TomlItem>, path: Seq<Seq<char>>) -> bool {
    items.dom().contains(path) && items[path] is Table
}

/// `p` lies strictly below `path`.
pub open spec fn strictly_below(p: Seq<Seq<char>>, path: Seq<Seq<char>>) -> bool {
    path.len() < p.len() && p.take(path.len() as int) == path
}

/// `p` is `path` or lies below it.
pub open spec fn at_or_below(p: Seq<Seq<char>>, path: Seq<Seq<char>>) -> bool {
    path.len() <= p.len() && p.take(path.len() as int) == path
}

/// The items with everything strictly below `path` taken away.
pub open spec fn without_subtree(items: Map<Seq<Seq<char>>, TomlItem>, path: Seq<Seq<char>>) -> Map<Seq<Seq<char>>, TomlItem> {
    Map::new(|p: Seq<Seq<char>>| items.dom().contains(p) && !strictly_below(p, path), |p: Seq<Seq<char>>| items[p])
}

/// The items after the item under `path` is set to the string `value`.
pub open spec fn with_string(items: Map<Seq<Seq<char>>, TomlItem>, path: Seq<Seq<char>>, value: Seq<char>) -> Map<Seq<Seq<char>>, TomlItem> {
    without_subtree(items, path).insert(path, TomlItem::String(value))
}

/// The items after the item under `path` is set to the inline table
/// `{ <inner> = "<value>" }`.
pub open spec fn with_inline_string(
    items: Map<Seq<Seq<char>>, TomlItem>,
    path: Seq<Seq<char>>,
    inner: Seq<char>,
    value: Seq<char>,
) -> Map<Seq<Seq<char>>, TomlItem> {
    without_subtree(items, path).insert(path, TomlItem::InlineTable).insert(path.push(inner), TomlItem::String(value))
}

/// The keys `order` with `key` added at the end, unless it is there already: a key
/// already present keeps its place.
pub open spec fn appended_key(order: Seq<Seq<char>>, key: Seq<char>) -> Seq<Seq<char>> {
    if order.contains(key) {
        order
    } else {
        order.push(key)
    }
}

/// The key order after `<table>.<key>` is set to a value that is no table: the table
/// keeps its keys with `key` appended if new, and what stood under the key is gone.
pub open spec fn keys_with_value(keys: Map<Seq<Seq<char>>, Seq<Seq<char>>>, table: Seq<Seq<char>>, key: Seq<char>) -> Map<Seq<Seq<char>>, Seq<Seq<char>>> {
    Map::new(
        |p: Seq<Seq<char>>| keys.dom().contains(p) && !at_or_below(p, table.push(key)),
        |p: Seq<Seq<char>>| keys[p],
    ).insert(table, appended_key(keys[table], key))
}

/// The key order after `<table>.<key>` is set to the inline table `{ <inner> = ... }`.
pub open spec fn keys_with_inline(
    keys: Map<Seq<Seq<char>>, Seq<Seq<char>>>,
    table: Seq<Seq<char>>,
    key: Seq<char>,
    inner: Seq<char>,
) -> Map<Seq<Seq<char>>, Seq<Seq<char>>> {
    keys_with_value(keys, table, key).insert(table.push(key), seq![inner])
}

/// Parses `text` as a TOML document (`str::parse::<toml_edit::Document>`, whose error
/// is turned into its message with `Display`). Claims that the outcome is the named
/// parse of the text, and that a parsed document has a table as its root.
#[verifier::external_body]
fn parse_document(text: &str) -> (r: Result<toml_edit::Document, String>)
    ensures
        r is Ok <==> toml_parse(text@) is Ok,
        r matches Ok(doc) ==> has_table_root(doc) && (toml_parse(text@) matches Ok(parsed) && parsed.0 == document_items(doc) && parsed.1 == table_keys(doc)),
        r matches Err(m) ==> (toml_parse(text@) matches Err(e) && e == m@),
{
    match text.parse::<toml_edit::Document>() {
        Ok(doc) => Ok(doc),
        Err(e) => Err(e.to_string()),
    }
}

/// Whether the document's root is a table (`Item::is_table` on `Document::root`).
/// Claims exactly the named fact.
#[verifier::external_body]
fn root_is_table(doc: &toml_edit::Document) -> (r: bool)
    ensures
        r == has_table_root(*doc),
{
    doc.root.is_table()
}

/// Whether the document's item under the top-level `key` is a table (`toml_edit`'s
/// `Index` on `Document`, then `Item::is_table`). Claims exactly that.
#[verifier::external_body]
fn is_top_level_table(doc: &toml_edit::Document, key: &str) -> (r: bool)
    requires
        has_table_root(*doc),
    ensures
        r == is_table_at(document_items(*doc), seq![key@]),
{
    doc[key].is_table()
}

/// Sets `<table>.<key>` to the string `value` (`IndexMut` on `Document` and on `Item`,
/// `toml_edit::value` with `Value::from(&str)`). Claims that exactly the item under that
/// path changes, to the string, and whatever stood below it goes; that the key keeps its
/// place in the table, or is appended if new; and that the root stays a table. `value`
/// must be text a basic string holds as it is: `toml_edit` reads the text as TOML string
/// syntax first.
#[verifier::external_body]
fn set_string(doc: &mut toml_edit::Document, table: &str, key: &str, value: &str)
    requires
        has_table_root(*old(doc)),
        is_table_at(document_items(*old(doc)), seq![table@]),
        is_bare_key(table@),
        is_bare_key(key@),
        is_plain_string(value@),
    ensures
        has_table_root(*final(doc)),
        document_items(*final(doc)) == with_string(document_items(*old(doc)), seq![table@, key@], value@),
        table_keys(*final(doc)) == keys_with_value(table_keys(*old(doc)), seq![table@], key@),
{
    doc[table][key] = toml_edit::value(value);
}

/// Sets `<table>.<key>` to the inline table `{ <inner> = "<value>" }`
/// (`InlineTable::default`, `get_or_insert` and `fmt` make the value; `IndexMut` on
/// `Document` and on `Item` store it). Claims that exactly the items under that path
/// change, to the inline table and its one string, and whatever stood below it goes;
/// that the key keeps its place in the table, or is appended if new; and that the root
/// stays a table.
#[verifier::external_body]
fn set_inline_string(doc: &mut toml_edit::Document, table: &str, key: &str, inner: &str, value: &str)
    requires
        has_table_root(*old(doc)),
        is_table_at(document_items(*old(doc)), seq![table@]),
        is_bare_key(table@),
        is_bare_key(key@),
        is_bare_key(inner@),
        is_plain_string(value@),
    ensures
        has_table_root(*final(doc)),
        document_items(*final(doc)) == with_inline_string(document_items(*old(doc)), seq![table@, key@], inner@, value@),
        table_keys(*final(doc)) == keys_with_inline(table_keys(*old(doc)), seq![table@], key@, inner@),
{
    let mut inline = toml_edit::InlineTable::default();
    inline.get_or_insert(inner, value);
    inline.fmt();
    doc[table][key] = toml_edit::value(toml_edit::Value::InlineTable(inline));
}

/// Renders a document with its tables in their original order
/// (`toml_edit::Document::to_string_in_original_order`, which needs a table as the
/// root). Claims exactly the named text.
#[verifier::external_body]
fn render_document(doc: &toml_edit::Document) -> (r: String)
    requires
        has_table_root(*doc),
    ensures
        r@ == rendered_document(*doc),
{
    doc.to_string_in_original_order()
}

/// Why a manifest could not be updated.
pub enum ManifestError {
    /// The manifest is not a TOML document; the message says where parsing failed.
    InvalidToml(String),
}

/// The path of the `[dependencies]` table.
pub open spec fn dependencies_path() -> Seq<Seq<char>> {
    seq!["dependencies"@]
}

/// The document's items after `dependencies.bindings` is set to
/// `{ path = "./bindings" }` and `dependencies.windows` to the *windows-rs* version;
/// every other item stays as it was.
pub open spec fn with_windows_dependencies(items: Map<Seq<Seq<char>>, TomlItem>) -> Map<Seq<Seq<char>>, TomlItem> {
    with_string(
        with_inline_string(items, seq!["dependencies"@, "bindings"@], "path"@, "./bindings"@),
        seq!["dependencies"@, "windows"@],
        WINDOWS_RS_VERSION@,
    )
}

/// The key order after those two settings: `bindings`, then `windows`, appended to the
/// `[dependencies]` table where they are new.
pub open spec fn keys_with_windows_dependencies(keys: Map<Seq<Seq<char>>, Seq<Seq<char>>>) -> Map<Seq<Seq<char>>, Seq<Seq<char>>> {
    keys_with_value(
        keys_with_inline(keys, dependencies_path(), "bindings"@, "path"@),
        dependencies_path(),
        "windows"@,
    )
}

/// The manifest text either is no TOML document or has a `[dependencies]` table.
pub open spec fn manifest_can_be_updated(text: Seq<char>) -> bool {
    toml_parse(text) matches Ok(parsed) ==> is_table_at(parsed.0, dependencies_path())
}

/// The outcome of adding the dependencies to the manifest `text`: when `text` is no
/// TOML document, the parse error's message; otherwise the rendering of a document
/// holding the items of `text` with the *bindings* and *windows* dependencies set, in
/// that key order.
pub open spec fn windows_dependencies_added(text: Seq<char>, r: Result<String, ManifestError>) -> bool {
    &&& r is Err <==> toml_parse(text) is Err
    &&& r matches Err(ManifestError::InvalidToml(m)) ==> toml_parse(text) matches Err(e) && e == m@
    &&& r matches Ok(out) ==> exists|doc: toml_edit::Document| {
        &&& #[trigger] rendered_document(doc) == out@
        &&& toml_parse(text) matches Ok(parsed)
        &&& document_items(doc) == with_windows_dependencies(parsed.0)
        &&& table_keys(doc) == keys_with_windows_dependencies(parsed.1)
    }
}

/// Sets `bindings = { path = "./bindings" }` and `windows = "<version>"` in the
/// document's `[dependencies]` table, replacing entries of the same names.
pub fn add_windows_dependencies_to(doc: &mut toml_edit::Document)
    requires
        has_table_root(*old(doc)),
        is_table_at(document_items(*old(doc)), dependencies_path()),
    ensures
        has_table_root(*final(doc)),
        document_items(*final(doc)) == with_windows_dependencies(document_items(*old(doc))),
        table_keys(*final(doc)) == keys_with_windows_dependencies(table_keys(*old(doc))),
{
    proof {
        reveal_strlit("dependencies");
        reveal_strlit("bindings");
        reveal_strlit("windows");
        reveal_strlit("path");
        reveal_strlit("./bindings");
        reveal_strlit("0.18.0");
    }
    set_inline_string(doc, "dependencies", "bindings", "path", "./bindings");
    assert(is_table_at(document_items(*doc), dependencies_path())) by {
        let p = seq!["dependencies"@, "bindings"@];
        assert(!strictly_below(dependencies_path(), p));
        assert(dependencies_path() != p);
        assert(dependencies_path() != p.push("path"@));
    }
    set_string(doc, "dependencies", "windows", WINDOWS_RS_VERSION);
}

/// As [`add_windows_dependencies_to`], for any document: `false`, with the document
/// unchanged, where its root is no table or it has no `[dependencies]` table.
pub fn try_add_windows_dependencies_to(doc: &mut toml_edit::Document) -> (added: bool)
    ensures
        added == (has_table_root(*old(doc)) && is_table_at(document_items(*old(doc)), dependencies_path())),
        added ==> has_table_root(*final(doc)),
        added ==> document_items(*final(doc)) == with_windows_dependencies(document_items(*old(doc))),
        added ==> table_keys(*final(doc)) == keys_with_windows_dependencies(table_keys(*old(doc))),
        !added ==> *final(doc) == *old(doc),
{
    proof {
        reveal_strlit("dependencies");
    }
    if root_is_table(doc) && is_top_level_table(doc, "dependencies") {
        add_windows_dependencies_to(doc);
        true
    } else {
        false
    }
}

/// Parses the manifest text, adds the *bindings* and *windows* dependencies, and renders
/// the result. The manifest must have a `[dependencies]` table if it parses.
pub fn add_windows_dependencies(manifest: &str) -> (r: Result<String, ManifestError>)
    requires
        manifest_can_be_updated(manifest@),
    ensures
        windows_dependencies_added(manifest@, r),
{
    match parse_document(manifest) {
        Err(message) => Err(ManifestError::InvalidToml(message)),
        Ok(mut doc) => {
            add_windows_dependencies_to(&mut doc);
            let out = render_document(&doc);
            assert(rendered_document(doc) == out@);
            Ok(out)
        },
    }
}

/// As [`add_windows_dependencies`], but `None` where the manifest parses and has no
/// `[dependencies]` table, the one case that function does not take.
pub fn try_add_windows_dependencies(manifest: &str) -> (r: Option<Result<String, ManifestError>>)
    ensures
        r is None <==> !manifest_can_be_updated(manifest@),
        r matches Some(res) ==> windows_dependencies_added(manifest@, res),
{
    proof {
        reveal_strlit("dependencies");
    }
    match parse_document(manifest) {
        Err(_) => Some(add_windows_dependencies(manifest)),
        Ok(doc) => {
            if is_top_level_table(&doc, "dependencies") {
                Some(add_windows_dependencies(manifest))
            } else {
                None
            }
        },
    }
}

} // verus!
