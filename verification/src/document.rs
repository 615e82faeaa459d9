//! The format-keeping TOML document of `toml_edit`, as the configuration
//! editor uses it: parsing and printing a document, stepping from an item
//! to a child by key, asking an item what it is, and inserting a value.
//!
//! What a document holds is modelled as a tree: a map from key paths to
//! the shape of the item that `Item::get` reaches along the path (the
//! empty path is the item itself). Values are kept for the shapes the
//! editor writes: integers, strings and arrays of strings. Formatting is
//! not modelled. The walk that uses these items is verified in `editor`.
use vstd::prelude::*;
use crate::editor::FieldValue;
use crate::parse::network::strings_view;

verus! {

#[verifier::external_type_specification]
#[verifier::external_body]
pub struct ExDocumentMut(toml_edit::DocumentMut);

#[verifier::external_type_specification]
#[verifier::external_body]
pub struct ExItem(toml_edit::Item);

#[verifier::external_type_specification]
#[verifier::external_body]
pub struct ExValue(toml_edit::Value);

#[verifier::external_type_specification]
#[verifier::external_body]
pub struct ExTable(toml_edit::Table);

#[verifier::external_type_specification]
#[verifier::external_body]
pub struct ExInlineTable(toml_edit::InlineTable);

/// What an item is.
pub enum Shape {
    /// A regular table (written under a `[header]`).
    Table,
    /// An inline table (`{ a = 1 }`).
    InlineTable,
    Integer(int),
    Text(Seq<char>),
    /// An array: each element's string, or `None` for another kind.
    Array(Seq<Option<Seq<char>>>),
    /// A float, a boolean or a date-time.
    OtherValue,
    /// An array of tables.
    Other,
}

/// What a document or an item holds: the shape at each key path.
pub type Tree = Map<Seq<Seq<char>>, Shape>;

/// The shape of the item itself, if there is one.
pub open spec fn shape_of(t: Tree) -> Option<Shape> {
    if t.contains_key(Seq::empty()) {
        Some(t[Seq::empty()])
    } else {
        None
    }
}

/// The tree under the child `k`.
pub open spec fn subtree(t: Tree, k: Seq<char>) -> Tree {
    Map::new(|p: Seq<Seq<char>>| t.contains_key(seq![k] + p), |p: Seq<Seq<char>>| t[seq![k] + p])
}

/// The tree with the child `k` replaced by `s` (`s` empty: no child `k`).
pub open spec fn graft(t: Tree, k: Seq<char>, s: Tree) -> Tree {
    Map::new(
        |p: Seq<Seq<char>>|
            if p.len() > 0 && p[0] == k {
                s.contains_key(p.drop_first())
            } else {
                t.contains_key(p)
            },
        |p: Seq<Seq<char>>|
            if p.len() > 0 && p[0] == k {
                s[p.drop_first()]
            } else {
                t[p]
            },
    )
}

/// An item without children.
pub open spec fn leaf(s: Shape) -> Tree {
    Map::empty().insert(Seq::empty(), s)
}

/// A shape that `Item::is_value` accepts.
pub open spec fn is_value_shape(s: Option<Shape>) -> bool {
    match s {
        Some(Shape::InlineTable) | Some(Shape::Integer(_)) | Some(Shape::Text(_)) | Some(Shape::Array(_)) | Some(
            Shape::OtherValue,
        ) => true,
        _ => false,
    }
}

/// The shape of the value an edit writes.
pub open spec fn field_shape(v: FieldValue) -> Shape {
    match v {
        FieldValue::Integer(n) => Shape::Integer(n as int),
        FieldValue::Array(items) => Shape::Array(strings_view(items@).map_values(|x: Seq<char>| Some(x))),
        FieldValue::Text(t) => Shape::Text(t@),
    }
}

/// What the document `toml_edit` parses from a text holds. A function of
/// the text alone; TOML's grammar is not restated here.
pub uninterp spec fn edit_tree(text: Seq<char>) -> Tree;

/// What a document holds.
pub uninterp spec fn document_tree(d: toml_edit::DocumentMut) -> Tree;

/// What an item holds, itself at the empty path.
pub uninterp spec fn item_tree(i: toml_edit::Item) -> Tree;

/// What a regular table holds, itself at the empty path.
pub uninterp spec fn table_tree(t: toml_edit::Table) -> Tree;

/// What an inline table holds, itself at the empty path.
pub uninterp spec fn inline_tree(t: toml_edit::InlineTable) -> Tree;

/// What a value holds, itself at the empty path.
pub uninterp spec fn value_tree(v: toml_edit::Value) -> Tree;

/// Whether `toml_edit` refuses a text as a document, and with what message.
/// A function of the text alone; TOML's grammar is not restated here.
pub uninterp spec fn edit_document_error(text: Seq<char>) -> Option<Seq<char>>;

/// `str::parse::<toml_edit::DocumentMut>`: the document of a text, or the
/// `TomlError`'s message; which comes, and what the document holds, are
/// named.
#[verifier::external_body]
pub(crate) fn parse_document(text: &str) -> (r: Result<toml_edit::DocumentMut, String>)
    ensures
        r is Ok <==> edit_document_error(text@) is None,
        r matches Err(e) ==> edit_document_error(text@) == Some(e@),
        r matches Ok(d) ==> document_tree(d) == edit_tree(text@),
{
    text.parse::<toml_edit::DocumentMut>().map_err(|e| e.to_string())
}

/// `DocumentMut`'s `Display`: the document printed with its formatting.
/// The printed text parses back to a document holding the same tree; its
/// formatting is not stated.
#[verifier::external_body]
pub(crate) fn document_text(doc: &toml_edit::DocumentMut) -> (r: String)
    ensures
        edit_document_error(r@) is None,
        edit_tree(r@) == document_tree(*doc),
{
    doc.to_string()
}

/// `DocumentMut::as_item`: the document's root table as an item.
#[verifier::external_body]
pub(crate) fn root_item(doc: &toml_edit::DocumentMut) -> (r: &toml_edit::Item)
    ensures
        item_tree(*r) == document_tree(*doc),
{
    doc.as_item()
}

/// `DocumentMut::as_item_mut`: the document's root table as an item; the
/// document then holds what the item holds.
#[verifier::external_body]
pub(crate) fn root_item_mut(doc: &mut toml_edit::DocumentMut) -> (r: &mut toml_edit::Item)
    ensures
        item_tree(*r) == document_tree(*old(doc)),
        document_tree(*final(doc)) == item_tree(*final(r)),
{
    doc.as_item_mut()
}

/// `Item::get` with a key: the child of a table or of an inline table;
/// `None` where there is none (an empty placeholder counts as none).
#[verifier::external_body]
pub(crate) fn child<'a>(item: &'a toml_edit::Item, key: &str) -> (r: Option<&'a toml_edit::Item>)
    ensures
        r is Some == item_tree(*item).contains_key(seq![key@]),
        r matches Some(c) ==> item_tree(*c) == subtree(item_tree(*item), key@),
{
    item.get(key)
}

/// `Item::get_mut` with a key: the child of a table or inline table; the
/// item then holds the child as it is left. On a key that is missing the
/// crate inserts an empty placeholder first, so callers ask `child`
/// before, and nothing is stated of that case.
#[verifier::external_body]
pub(crate) fn child_mut<'a>(item: &'a mut toml_edit::Item, key: &str) -> (r: Option<&'a mut toml_edit::Item>)
    ensures
        item_tree(*old(item)).contains_key(seq![key@]) ==> (r is Some && item_tree(*r->0) == subtree(
            item_tree(*old(item)),
            key@,
        ) && item_tree(*final(item)) == graft(item_tree(*old(item)), key@, item_tree(*final(r->0)))),
{
    item.get_mut(key)
}

/// `Item::is_table`: a regular table.
#[verifier::external_body]
pub(crate) fn is_table(item: &toml_edit::Item) -> (r: bool)
    ensures
        r == (shape_of(item_tree(*item)) == Some(Shape::Table)),
{
    item.is_table()
}

/// `Item::is_value`: a value, inline tables among them.
#[verifier::external_body]
pub(crate) fn is_value(item: &toml_edit::Item) -> (r: bool)
    ensures
        r == is_value_shape(shape_of(item_tree(*item))),
{
    item.is_value()
}

/// `Item::is_inline_table`: an inline table.
#[verifier::external_body]
pub(crate) fn is_inline_table(item: &toml_edit::Item) -> (r: bool)
    ensures
        r == (shape_of(item_tree(*item)) == Some(Shape::InlineTable)),
{
    item.is_inline_table()
}

/// `Item::is_integer`: an integer value.
#[verifier::external_body]
pub(crate) fn is_integer(item: &toml_edit::Item) -> (r: bool)
    ensures
        r == (shape_of(item_tree(*item)) matches Some(Shape::Integer(_))),
{
    item.is_integer()
}

/// `Item::is_array`: an array value.
#[verifier::external_body]
pub(crate) fn is_array(item: &toml_edit::Item) -> (r: bool)
    ensures
        r == (shape_of(item_tree(*item)) matches Some(Shape::Array(_))),
{
    item.is_array()
}

/// `Item::as_table_mut`: the regular table an item is, if it is one; the
/// item then holds what the table holds.
#[verifier::external_body]
pub(crate) fn as_table_mut(item: &mut toml_edit::Item) -> (r: Option<&mut toml_edit::Table>)
    ensures
        r is Some == (shape_of(item_tree(*old(item))) == Some(Shape::Table)),
        r is Some ==> table_tree(*r->0) == item_tree(*old(item)) && item_tree(*final(item)) == table_tree(
            *final(r->0),
        ),
{
    item.as_table_mut()
}

/// `Item::as_inline_table_mut`: the inline table an item is, if it is one;
/// the item then holds what the inline table holds.
#[verifier::external_body]
pub(crate) fn as_inline_table_mut(item: &mut toml_edit::Item) -> (r: Option<&mut toml_edit::InlineTable>)
    ensures
        r is Some == (shape_of(item_tree(*old(item))) == Some(Shape::InlineTable)),
        r is Some ==> inline_tree(*r->0) == item_tree(*old(item)) && item_tree(*final(item)) == inline_tree(
            *final(r->0),
        ),
{
    item.as_inline_table_mut()
}

/// `Table::insert`: set a key of a regular table to a value, replacing
/// what it held.
#[verifier::external_body]
pub(crate) fn table_insert(table: &mut toml_edit::Table, key: &str, value: toml_edit::Value)
    ensures
        table_tree(*final(table)) == graft(table_tree(*old(table)), key@, value_tree(value)),
{
    table.insert(key, toml_edit::Item::Value(value));
}

/// `Table::insert` with a new empty table: the key then holds a regular
/// table without children.
#[verifier::external_body]
pub(crate) fn table_insert_table(table: &mut toml_edit::Table, key: &str)
    ensures
        table_tree(*final(table)) == graft(table_tree(*old(table)), key@, leaf(Shape::Table)),
{
    table.insert(key, toml_edit::Item::Table(toml_edit::Table::new()));
}

/// `InlineTable::insert`: set a key of an inline table to a value,
/// replacing what it held.
#[verifier::external_body]
pub(crate) fn inline_table_insert(table: &mut toml_edit::InlineTable, key: &str, value: toml_edit::Value)
    ensures
        inline_tree(*final(table)) == graft(inline_tree(*old(table)), key@, value_tree(value)),
{
    table.insert(key, value);
}

/// `Value::from(i64)`: an integer value.
#[verifier::external_body]
pub(crate) fn integer_value(n: i64) -> (r: toml_edit::Value)
    ensures
        value_tree(r) == leaf(Shape::Integer(n as int)),
{
    toml_edit::Value::from(n)
}

/// `Value::from(&str)`: a string value.
#[verifier::external_body]
pub(crate) fn string_value(s: &str) -> (r: toml_edit::Value)
    ensures
        value_tree(r) == leaf(Shape::Text(s@)),
{
    toml_edit::Value::from(s)
}

/// `Value`'s `FromIterator`: an array of string values, in order.
#[verifier::external_body]
pub(crate) fn string_array_value(items: &Vec<String>) -> (r: toml_edit::Value)
    ensures
        value_tree(r) == leaf(Shape::Array(strings_view(items@).map_values(|x: Seq<char>| Some(x)))),
{
    items.iter().collect::<toml_edit::Value>()
}

/// The outside value an edit writes.
pub(crate) fn value_of(v: &FieldValue) -> (r: toml_edit::Value)
    ensures
        value_tree(r) == leaf(field_shape(*v)),
{
    match v {
        FieldValue::Integer(n) => integer_value(*n),
        FieldValue::Array(items) => string_array_value(items),
        FieldValue::Text(t) => string_value(t.as_str()),
    }
}

} // verus!
