//! Decisions of the configuration editor: which file a field lives in, how
//! a dotted field path is walked (through tables, then inline tables), what
//! value an edit writes given the field's current kind, renaming a
//! deployment, and the defaults of a new hypervisor.
//!
//! The caller reads and writes the files and edits the TOML document.
use vstd::prelude::*;
use crate::document::{as_inline_table_mut, as_table_mut, child, child_mut, document_text, edit_document_error, edit_tree, graft, inline_table_insert, is_array, is_inline_table, is_integer, is_table, is_value, is_value_shape, item_tree, leaf, parse_document, root_item, root_item_mut, shape_of, string_value, subtree, table_insert, table_insert_table, value_of, Shape, Tree};
use crate::config::{GlobalConfig, HypervisorConfig, HypervisorCredentials, HypervisorMeta, HypervisorType, ProxmoxHypervisorConfig};
use crate::parse::network::strings_view;
use crate::text::{opt_view, parse_i64, parse_i64_exec, push_str, split_char, split_char_exec, str_eq, string_from, string_of, to_chars, trim, trim_chars, views};

verus! {

/// The file of a configuration part: `deployment`, `build` or `monitoring`.
pub open spec fn spec_config_file(file: Seq<char>) -> Option<Seq<char>> {
    if file == "deployment"@ {
        Some("deployment.toml"@)
    } else if file == "build"@ {
        Some("build.toml"@)
    } else if file == "monitoring"@ {
        Some("monitoring.toml"@)
    } else {
        None
    }
}

/// The file name of a configuration part, or the error for an unknown one.
pub fn config_file_name(file: &str) -> (r: Result<&'static str, String>)
    ensures
        match spec_config_file(file@) {
            Some(n) => r matches Ok(f) && f@ == n,
            None => r matches Err(e) && e@ == "Unknown config file: "@ + file@,
        },
{
    if str_eq(file, "deployment") {
        Ok("deployment.toml")
    } else if str_eq(file, "build") {
        Ok("build.toml")
    } else if str_eq(file, "monitoring") {
        Ok("monitoring.toml")
    } else {
        let mut e = string_from("Unknown config file: ");
        push_str(&mut e, file);
        Err(e)
    }
}

/// A dotted field path: the tables on the way, then the field.
pub struct FieldPath {
    pub parents: Vec<String>,
    pub field: String,
}

/// Split `a.b.c` into its parents `a`, `b` and its field `c`.
pub fn split_field_path(path: &str) -> (r: FieldPath)
    ensures
        strings_view(r.parents@) == split_char(path@, '.').drop_last(),
        r.field@ == split_char(path@, '.').last(),
        split_char(path@, '.').len() >= 1,
{
    let v = to_chars(path);
    let parts = split_char_exec(v.as_slice(), '.');
    let ghost pv = views(parts@);
    let n = parts.len();
    let mut parents: Vec<String> = Vec::new();
    let mut i: usize = 0;
    while i + 1 < n
        invariant
            n == parts@.len(),
            n >= 1,
            i + 1 <= n,
            pv == views(parts@),
            parents@.len() == i,
            strings_view(parents@) == pv.take(i as int),
        decreases n - i,
    {
        assert(pv[i as int] == parts@[i as int]@);
        parents.push(string_of(parts[i]));
        assert(strings_view(parents@) =~= pv.take(i + 1));
        i = i + 1;
    }
    assert(pv.take(i as int) =~= pv.drop_last());
    assert(pv.last() == parts@[n - 1]@);
    FieldPath { parents, field: string_of(parts[n - 1]) }
}

/// Where an edit goes: through regular tables all the way, or through
/// `regular` tables to an inline table `inline_key`, then through the
/// inline tables `rest`.
pub enum EditTarget {
    Tables { parents: Vec<String> },
    Inline { regular: Vec<String>, inline_key: String, rest: Vec<String> },
}

/// Plan the walk, given how many leading parents are regular tables in the
/// document.
pub fn edit_target(parents: &Vec<String>, table_depth: usize) -> (r: EditTarget)
    requires
        table_depth <= parents@.len(),
    ensures
        table_depth == parents@.len() ==> (r matches EditTarget::Tables { parents: p } && strings_view(p@) == strings_view(parents@)),
        table_depth < parents@.len() ==> (r matches EditTarget::Inline { regular, inline_key, rest } && strings_view(regular@) == strings_view(parents@).take(table_depth as int)
            && inline_key@ == parents@[table_depth as int]@
            && strings_view(rest@) == strings_view(parents@).skip(table_depth + 1)),
{
    let ghost pv = strings_view(parents@);
    let mut first: Vec<String> = Vec::new();
    let mut i: usize = 0;
    while i < table_depth
        invariant
            table_depth <= parents@.len(),
            i <= table_depth,
            pv == strings_view(parents@),
            first@.len() == i,
            strings_view(first@) == pv.take(i as int),
        decreases table_depth - i,
    {
        assert(pv[i as int] == parents@[i as int]@);
        first.push(string_from(parents[i].as_str()));
        assert(strings_view(first@) =~= pv.take(i + 1));
        i = i + 1;
    }
    if table_depth == parents.len() {
        assert(pv.take(i as int) =~= pv);
        return EditTarget::Tables { parents: first };
    }
    let inline_key = string_from(parents[table_depth].as_str());
    let mut rest: Vec<String> = Vec::new();
    let mut j: usize = table_depth + 1;
    while j < parents.len()
        invariant
            table_depth < parents@.len(),
            table_depth + 1 <= j <= parents@.len(),
            pv == strings_view(parents@),
            rest@.len() == j - table_depth - 1,
            strings_view(rest@) == pv.subrange(table_depth + 1, j as int),
        decreases parents@.len() - j,
    {
        assert(pv[j as int] == parents@[j as int]@);
        rest.push(string_from(parents[j].as_str()));
        assert(strings_view(rest@) =~= pv.subrange(table_depth + 1, j + 1));
        j = j + 1;
    }
    assert(pv.subrange(table_depth + 1, j as int) =~= pv.skip(table_depth + 1));
    EditTarget::Inline { regular: first, inline_key, rest }
}

/// The kind of value a field holds now.
#[derive(Debug, Clone, Copy, PartialEq, Eq, Structural)]
pub enum FieldKind {
    Integer,
    Array,
    /// A string, another kind, or no value yet.
    Other,
}

/// The value an edit writes.
pub enum FieldValue {
    Integer(i64),
    /// An array of strings.
    Array(Vec<String>),
    Text(String),
}

/// The items of a comma-separated input: each trimmed, empty ones dropped.
pub open spec fn spec_array_items(parts: Seq<Seq<char>>) -> Seq<Seq<char>>
    decreases parts.len(),
{
    if parts.len() == 0 {
        seq![]
    } else {
        let rest = spec_array_items(parts.drop_last());
        if trim(parts.last()).len() == 0 {
            rest
        } else {
            rest.push(trim(parts.last()))
        }
    }
}

/// Split a comma-separated input into array items.
pub fn array_items(value: &str) -> (r: Vec<String>)
    ensures
        strings_view(r@) == spec_array_items(split_char(value@, ',')),
{
    let v = to_chars(value);
    let parts = split_char_exec(v.as_slice(), ',');
    let ghost pv = views(parts@);
    let mut out: Vec<String> = Vec::new();
    let mut i: usize = 0;
    while i < parts.len()
        invariant
            i <= parts@.len(),
            pv == views(parts@),
            pv == split_char(value@, ','),
            strings_view(out@) == spec_array_items(pv.take(i as int)),
        decreases parts@.len() - i,
    {
        assert(pv.take(i + 1).drop_last() =~= pv.take(i as int));
        assert(pv.take(i + 1).last() == parts@[i as int]@);
        let t = trim_chars(parts[i]);
        if t.len() > 0 {
            out.push(string_of(t));
            assert(strings_view(out@) =~= spec_array_items(pv.take(i as int)).push(t@));
        }
        i = i + 1;
    }
    assert(pv.take(i as int) =~= pv);
    out
}

/// The message when an integer field gets text that is not a number.
pub open spec fn spec_not_a_number(field: Seq<char>, value: Seq<char>) -> Seq<char> {
    "'"@ + field + "' must be a number, got '"@ + value + "'"@
}

/// What an edit writes: an integer field keeps being an integer (and
/// refuses text that is not one); an array field in a regular table takes
/// the comma-separated items; anything else takes the text. Inside inline
/// tables only integers are kept as such.
pub fn edit_value(kind: FieldKind, in_inline_table: bool, field: &str, value: &str) -> (r: Result<FieldValue, String>)
    ensures
        kind == FieldKind::Integer ==> match parse_i64(value@) {
            Some(n) => r matches Ok(FieldValue::Integer(m)) && m == n,
            None => r matches Err(e) && e@ == spec_not_a_number(field@, value@),
        },
        kind == FieldKind::Array && !in_inline_table ==> (r matches Ok(FieldValue::Array(items))
            && strings_view(items@) == spec_array_items(split_char(value@, ','))),
        kind == FieldKind::Other || (kind == FieldKind::Array && in_inline_table) ==> (r matches Ok(
            FieldValue::Text(t),
        ) && t@ == value@),
{
    match kind {
        FieldKind::Integer => {
            let v = to_chars(value);
            match parse_i64_exec(v.as_slice()) {
                Some(n) => Ok(FieldValue::Integer(n)),
                None => {
                    let mut e = string_from("'");
                    push_str(&mut e, field);
                    push_str(&mut e, "' must be a number, got '");
                    push_str(&mut e, value);
                    push_str(&mut e, "'");
                    Err(e)
                },
            }
        },
        FieldKind::Array => {
            if in_inline_table {
                Ok(FieldValue::Text(string_from(value)))
            } else {
                Ok(FieldValue::Array(array_items(value)))
            }
        },
        FieldKind::Other => Ok(FieldValue::Text(string_from(value))),
    }
}

/// The message when a document cannot be parsed.
pub open spec fn spec_parse_failure(file_name: Seq<char>, m: Seq<char>) -> Seq<char> {
    "Failed to parse "@ + file_name + ": "@ + m
}

/// `Expected '<part>' to be a table`.
pub open spec fn expected_table(part: Seq<char>) -> Seq<char> {
    "Expected '"@ + part + "' to be a table"@
}

/// The kind of the value a tree's item holds (`Other` where there is none).
pub open spec fn spec_kind_of(t: Tree) -> FieldKind {
    match shape_of(t) {
        Some(Shape::Integer(_)) => FieldKind::Integer,
        Some(Shape::Array(_)) => FieldKind::Array,
        _ => FieldKind::Other,
    }
}

/// The kind as an edit inside an inline table, or of a hypervisor file,
/// sees it: integers are kept, anything else is written as text.
pub open spec fn spec_int_kind_of(t: Tree) -> FieldKind {
    if spec_kind_of(t) == FieldKind::Integer {
        FieldKind::Integer
    } else {
        FieldKind::Other
    }
}

/// The shape an edit writes, as `edit_value` decides it, or its error.
pub open spec fn spec_field_value(kind: FieldKind, in_inline_table: bool, field: Seq<char>, value: Seq<char>) -> Result<Shape, Seq<char>> {
    if kind == FieldKind::Integer {
        match parse_i64(value) {
            Some(n) => Ok(Shape::Integer(n)),
            None => Err(spec_not_a_number(field, value)),
        }
    } else if kind == FieldKind::Array && !in_inline_table {
        Ok(Shape::Array(spec_array_items(split_char(value, ',')).map_values(|x: Seq<char>| Some(x))))
    } else {
        Ok(Shape::Text(value))
    }
}

/// Write `field` into the item of tree `t`, which must be a table of the
/// given shape, else `missing` is the error.
pub open spec fn spec_put_field(t: Tree, table: Shape, kind: FieldKind, inline: bool, field: Seq<char>, value: Seq<char>, missing: Seq<char>) -> Result<Tree, Seq<char>> {
    match spec_field_value(kind, inline, field, value) {
        Err(e) => Err(e),
        Ok(s) => if shape_of(t) == Some(table) {
            Ok(graft(t, field, leaf(s)))
        } else {
            Err(missing)
        },
    }
}

/// A child's result grafted back into its parent.
pub open spec fn spec_graft_result(t: Tree, k: Seq<char>, r: Result<Tree, Seq<char>>) -> Result<Tree, Seq<char>> {
    match r {
        Ok(u) => Ok(graft(t, k, u)),
        Err(e) => Err(e),
    }
}

/// How many leading parents are regular tables in a tree.
pub open spec fn spec_table_depth(t: Tree, parents: Seq<Seq<char>>) -> nat
    decreases parents.len(),
{
    if parents.len() == 0 {
        0
    } else if t.contains_key(seq![parents[0]]) && shape_of(subtree(t, parents[0])) == Some(Shape::Table) {
        1 + spec_table_depth(subtree(t, parents[0]), parents.drop_first())
    } else {
        0
    }
}

/// Set `field` in the regular table reached through the regular tables
/// `parts`.
pub open spec fn spec_tables_edit(t: Tree, parts: Seq<Seq<char>>, field: Seq<char>, value: Seq<char>) -> Result<Tree, Seq<char>>
    decreases parts.len(),
{
    if parts.len() == 0 {
        spec_put_field(t, Shape::Table, spec_kind_of(subtree(t, field)), false, field, value, expected_table(field))
    } else {
        let k = parts[0];
        if !t.contains_key(seq![k]) || shape_of(subtree(t, k)) != Some(Shape::Table) {
            Err(expected_table(k))
        } else {
            spec_graft_result(t, k, spec_tables_edit(subtree(t, k), parts.drop_first(), field, value))
        }
    }
}

/// Set `field` in the inline table reached through the inline tables
/// `rest`.
pub open spec fn spec_inline_rest_edit(t: Tree, rest: Seq<Seq<char>>, field: Seq<char>, value: Seq<char>) -> Result<Tree, Seq<char>>
    decreases rest.len(),
{
    if rest.len() == 0 {
        spec_put_field(t, Shape::InlineTable, spec_int_kind_of(subtree(t, field)), true, field, value,
            "'"@ + field + "' is not an inline table"@)
    } else {
        let k = rest[0];
        if !t.contains_key(seq![k]) {
            Err("Key '"@ + k + "' not found in inline table"@)
        } else if shape_of(subtree(t, k)) != Some(Shape::InlineTable) {
            Err("'"@ + k + "' is not an inline table"@)
        } else {
            spec_graft_result(t, k, spec_inline_rest_edit(subtree(t, k), rest.drop_first(), field, value))
        }
    }
}

/// Set `field` through the inline table `key` of a regular table, then the
/// inline tables `rest`.
pub open spec fn spec_inline_key_edit(t: Tree, key: Seq<char>, rest: Seq<Seq<char>>, field: Seq<char>, value: Seq<char>) -> Result<Tree, Seq<char>> {
    if !t.contains_key(seq![key]) {
        Err("Key '"@ + key + "' not found"@)
    } else if !is_value_shape(shape_of(subtree(t, key))) {
        Err("'"@ + key + "' is not a value"@)
    } else if shape_of(subtree(t, key)) != Some(Shape::InlineTable) {
        Err("'"@ + key + "' is not an inline table"@)
    } else {
        spec_graft_result(t, key, spec_inline_rest_edit(subtree(t, key), rest, field, value))
    }
}

/// Set `field` through the regular tables `regular`, then the inline table
/// `key`, then the inline tables `rest`.
pub open spec fn spec_regular_edit(t: Tree, regular: Seq<Seq<char>>, key: Seq<char>, rest: Seq<Seq<char>>, field: Seq<char>, value: Seq<char>) -> Result<Tree, Seq<char>>
    decreases regular.len(),
{
    if regular.len() == 0 {
        spec_inline_key_edit(t, key, rest, field, value)
    } else {
        let k = regular[0];
        if !t.contains_key(seq![k]) {
            Err("Key '"@ + k + "' not found"@)
        } else if shape_of(subtree(t, k)) != Some(Shape::Table) {
            Err("'"@ + k + "' is not a table"@)
        } else {
            spec_graft_result(t, k, spec_regular_edit(subtree(t, k), regular.drop_first(), key, rest, field, value))
        }
    }
}

/// Setting the dotted field `parts` of a document to `value`: through the
/// regular tables as far as the document has them, then on through an
/// inline table; the document's new tree, or the error.
pub open spec fn spec_config_edit(t: Tree, parts: Seq<Seq<char>>, value: Seq<char>) -> Result<Tree, Seq<char>> {
    let parents = parts.drop_last();
    let field = parts.last();
    let d = spec_table_depth(t, parents);
    if d >= parents.len() {
        spec_tables_edit(t, parents, field, value)
    } else {
        spec_regular_edit(t, parents.take(d as int), parents[d as int], parents.skip(d as int + 1), field, value)
    }
}

/// Setting a field of a hypervisor file: through regular tables, making
/// those that are missing; integers are kept.
pub open spec fn spec_hypervisor_edit(t: Tree, parts: Seq<Seq<char>>, field: Seq<char>, value: Seq<char>) -> Result<Tree, Seq<char>>
    decreases parts.len(),
{
    if parts.len() == 0 {
        spec_put_field(t, Shape::Table, spec_int_kind_of(subtree(t, field)), false, field, value, expected_table(field))
    } else {
        let k = parts[0];
        if !t.contains_key(seq![k]) {
            if shape_of(t) != Some(Shape::Table) {
                Err(expected_table(k))
            } else {
                let t1 = graft(t, k, leaf(Shape::Table));
                spec_graft_result(t1, k, spec_hypervisor_edit(subtree(t1, k), parts.drop_first(), field, value))
            }
        } else if shape_of(subtree(t, k)) != Some(Shape::Table) {
            Err(expected_table(k))
        } else {
            spec_graft_result(t, k, spec_hypervisor_edit(subtree(t, k), parts.drop_first(), field, value))
        }
    }
}

/// A deployment renamed: `deployment.name` set where `deployment` is a
/// regular table; otherwise the document as it was.
pub open spec fn spec_renamed(t: Tree, name: Seq<char>) -> Tree {
    if t.contains_key(seq!["deployment"@]) && shape_of(subtree(t, "deployment"@)) == Some(Shape::Table) {
        graft(t, "deployment"@, graft(subtree(t, "deployment"@), "name"@, leaf(Shape::Text(name))))
    } else {
        t
    }
}

fn quoted(pre: &str, part: &str, post: &str) -> (r: String)
    ensures
        r@ == pre@ + part@ + post@,
{
    let mut s = string_from(pre);
    push_str(&mut s, part);
    push_str(&mut s, post);
    s
}

fn parse_failure(file_name: &str, m: &str) -> (r: String)
    ensures
        r@ == spec_parse_failure(file_name@, m@),
{
    let mut e = string_from("Failed to parse ");
    push_str(&mut e, file_name);
    push_str(&mut e, ": ");
    push_str(&mut e, m);
    e
}

/// The kind of the value of an item's child.
fn child_kind(item: &toml_edit::Item, key: &str) -> (r: FieldKind)
    ensures
        r == spec_kind_of(subtree(item_tree(*item), key@)),
{
    let ghost t = item_tree(*item);
    assert(seq![key@] + Seq::<Seq<char>>::empty() =~= seq![key@]);
    match child(item, key) {
        Some(c) => {
            if is_integer(c) {
                FieldKind::Integer
            } else if is_array(c) {
                FieldKind::Array
            } else {
                FieldKind::Other
            }
        },
        None => {
            assert(shape_of(subtree(t, key@)) is None);
            FieldKind::Other
        },
    }
}

/// The kind an integer-keeping edit sees.
fn int_kind(item: &toml_edit::Item, key: &str) -> (r: FieldKind)
    ensures
        r == spec_int_kind_of(subtree(item_tree(*item), key@)),
{
    match child_kind(item, key) {
        FieldKind::Integer => FieldKind::Integer,
        _ => FieldKind::Other,
    }
}

/// How many leading parents, from the `i`-th, are regular tables.
fn table_depth(item: &toml_edit::Item, parents: &Vec<String>, i: usize) -> (d: usize)
    requires
        i <= parents@.len(),
    ensures
        d == i + spec_table_depth(item_tree(*item), strings_view(parents@).skip(i as int)),
        d <= parents@.len(),
    decreases parents@.len() - i,
{
    let ghost ps = strings_view(parents@).skip(i as int);
    if i == parents.len() {
        return i;
    }
    let part = parents[i].as_str();
    assert(ps[0] == part@);
    assert(ps.drop_first() =~= strings_view(parents@).skip(i + 1));
    match child(item, part) {
        Some(c) => {
            if is_table(c) {
                table_depth(c, parents, i + 1)
            } else {
                i
            }
        },
        None => i,
    }
}

/// Set `field` in the regular table reached through `parents` from the
/// `i`-th.
fn set_in_tables(item: &mut toml_edit::Item, parents: &Vec<String>, i: usize, field: &str, value: &str) -> (r: Result<(), String>)
    requires
        i <= parents@.len(),
    ensures
        match spec_tables_edit(item_tree(*old(item)), strings_view(parents@).skip(i as int), field@, value@) {
            Ok(t) => r is Ok && item_tree(*final(item)) == t,
            Err(e) => r matches Err(m) && m@ == e,
        },
    decreases parents@.len() - i,
{
    let ghost t = item_tree(*item);
    let ghost ps = strings_view(parents@).skip(i as int);
    if i == parents.len() {
        assert(ps.len() == 0);
        let kind = child_kind(&*item, field);
        let v = edit_value(kind, false, field, value)?;
        match as_table_mut(item) {
            Some(tb) => {
                table_insert(tb, field, value_of(&v));
                Ok(())
            },
            None => Err(quoted("Expected '", field, "' to be a table")),
        }
    } else {
        let part = parents[i].as_str();
        assert(ps[0] == part@);
        assert(ps.drop_first() =~= strings_view(parents@).skip(i + 1));
        match child(&*item, part) {
            Some(c) => {
                if !is_table(c) {
                    return Err(quoted("Expected '", part, "' to be a table"));
                }
            },
            None => {
                return Err(quoted("Expected '", part, "' to be a table"));
            },
        }
        match child_mut(item, part) {
            Some(c) => set_in_tables(c, parents, i + 1, field, value),
            None => Err(quoted("Expected '", part, "' to be a table")),
        }
    }
}

/// Set `field` in the inline table reached through the inline tables
/// `rest` from the `i`-th.
fn set_in_inline_rest(item: &mut toml_edit::Item, rest: &Vec<String>, i: usize, field: &str, value: &str) -> (r: Result<(), String>)
    requires
        i <= rest@.len(),
    ensures
        match spec_inline_rest_edit(item_tree(*old(item)), strings_view(rest@).skip(i as int), field@, value@) {
            Ok(t) => r is Ok && item_tree(*final(item)) == t,
            Err(e) => r matches Err(m) && m@ == e,
        },
    decreases rest@.len() - i,
{
    let ghost ps = strings_view(rest@).skip(i as int);
    if i == rest.len() {
        assert(ps.len() == 0);
        let kind = int_kind(&*item, field);
        let v = edit_value(kind, true, field, value)?;
        match as_inline_table_mut(item) {
            Some(tb) => {
                inline_table_insert(tb, field, value_of(&v));
                Ok(())
            },
            None => Err(quoted("'", field, "' is not an inline table")),
        }
    } else {
        let part = rest[i].as_str();
        assert(ps[0] == part@);
        assert(ps.drop_first() =~= strings_view(rest@).skip(i + 1));
        match child(&*item, part) {
            Some(c) => {
                if !is_inline_table(c) {
                    return Err(quoted("'", part, "' is not an inline table"));
                }
            },
            None => {
                return Err(quoted("Key '", part, "' not found in inline table"));
            },
        }
        match child_mut(item, part) {
            Some(c) => set_in_inline_rest(c, rest, i + 1, field, value),
            None => Err(quoted("Key '", part, "' not found in inline table")),
        }
    }
}

/// Set `field` through the regular tables `regular` from the `i`-th, then
/// the inline table `inline_key`, then the inline tables `rest`.
fn set_in_regular(
    item: &mut toml_edit::Item,
    regular: &Vec<String>,
    i: usize,
    inline_key: &str,
    rest: &Vec<String>,
    field: &str,
    value: &str,
) -> (r: Result<(), String>)
    requires
        i <= regular@.len(),
    ensures
        match spec_regular_edit(item_tree(*old(item)), strings_view(regular@).skip(i as int), inline_key@, strings_view(rest@), field@, value@) {
            Ok(t) => r is Ok && item_tree(*final(item)) == t,
            Err(e) => r matches Err(m) && m@ == e,
        },
    decreases regular@.len() - i,
{
    let ghost ps = strings_view(regular@).skip(i as int);
    if i == regular.len() {
        assert(ps.len() == 0);
        assert(strings_view(rest@).skip(0) =~= strings_view(rest@));
        match child(&*item, inline_key) {
            Some(c) => {
                if !is_value(c) {
                    return Err(quoted("'", inline_key, "' is not a value"));
                }
                if !is_inline_table(c) {
                    return Err(quoted("'", inline_key, "' is not an inline table"));
                }
            },
            None => {
                return Err(quoted("Key '", inline_key, "' not found"));
            },
        }
        match child_mut(item, inline_key) {
            Some(c) => set_in_inline_rest(c, rest, 0, field, value),
            None => Err(quoted("Key '", inline_key, "' not found")),
        }
    } else {
        let part = regular[i].as_str();
        assert(ps[0] == part@);
        assert(ps.drop_first() =~= strings_view(regular@).skip(i + 1));
        match child(&*item, part) {
            Some(c) => {
                if !is_table(c) {
                    return Err(quoted("'", part, "' is not a table"));
                }
            },
            None => {
                return Err(quoted("Key '", part, "' not found"));
            },
        }
        match child_mut(item, part) {
            Some(c) => set_in_regular(c, regular, i + 1, inline_key, rest, field, value),
            None => Err(quoted("Key '", part, "' not found")),
        }
    }
}

/// Set a dotted field in the text of a configuration file, keeping its
/// formatting: the walk goes through regular tables, and on into an inline
/// table where the document has one on the path; an integer field stays an
/// integer and an array field in a regular table takes comma-separated
/// items. The result is the edited text, which parses to the document with
/// the field set; how it is formatted is `toml_edit`'s.
pub fn set_config_field(contents: &str, file_name: &str, path: &str, value: &str) -> (r: Result<String, String>)
    ensures
        match edit_document_error(contents@) {
            Some(m) => r matches Err(e) && e@ == spec_parse_failure(file_name@, m),
            None => match spec_config_edit(edit_tree(contents@), split_char(path@, '.'), value@) {
                Ok(t) => r matches Ok(text) && edit_document_error(text@) is None && edit_tree(text@) == t,
                Err(e) => r matches Err(m) && m@ == e,
            },
        },
{
    let mut doc = match parse_document(contents) {
        Ok(d) => d,
        Err(m) => {
            return Err(parse_failure(file_name, m.as_str()));
        },
    };
    let fp = split_field_path(path);
    let ghost parts = split_char(path@, '.');
    let ghost t0 = edit_tree(contents@);
    let depth = table_depth(root_item(&doc), &fp.parents, 0);
    proof {
        assert(strings_view(fp.parents@).skip(0) =~= strings_view(fp.parents@));
    }
    let target = edit_target(&fp.parents, depth);
    let root = root_item_mut(&mut doc);
    let done = match target {
        EditTarget::Tables { parents } => {
            proof {
                assert(strings_view(parents@).skip(0) =~= strings_view(fp.parents@));
            }
            set_in_tables(root, &parents, 0, fp.field.as_str(), value)
        },
        EditTarget::Inline { regular, inline_key, rest } => {
            proof {
                assert(strings_view(regular@).skip(0) =~= strings_view(regular@));
            }
            set_in_regular(root, &regular, 0, inline_key.as_str(), &rest, fp.field.as_str(), value)
        },
    };
    match done {
        Ok(()) => Ok(document_text(&doc)),
        Err(e) => Err(e),
    }
}

/// Set a dotted field of a hypervisor file, `i`-th part on.
fn set_in_hypervisor(item: &mut toml_edit::Item, parents: &Vec<String>, i: usize, field: &str, value: &str) -> (r: Result<(), String>)
    requires
        i <= parents@.len(),
    ensures
        match spec_hypervisor_edit(item_tree(*old(item)), strings_view(parents@).skip(i as int), field@, value@) {
            Ok(t) => r is Ok && item_tree(*final(item)) == t,
            Err(e) => r matches Err(m) && m@ == e,
        },
    decreases parents@.len() - i,
{
    let ghost ps = strings_view(parents@).skip(i as int);
    if i == parents.len() {
        assert(ps.len() == 0);
        let kind = int_kind(&*item, field);
        let v = edit_value(kind, false, field, value)?;
        match as_table_mut(item) {
            Some(tb) => {
                table_insert(tb, field, value_of(&v));
                Ok(())
            },
            None => Err(quoted("Expected '", field, "' to be a table")),
        }
    } else {
        let part = parents[i].as_str();
        assert(ps[0] == part@);
        assert(ps.drop_first() =~= strings_view(parents@).skip(i + 1));
        let missing = child(&*item, part).is_none();
        if missing {
            match as_table_mut(item) {
                Some(tb) => {
                    table_insert_table(tb, part);
                },
                None => {
                    return Err(quoted("Expected '", part, "' to be a table"));
                },
            }
            assert(leaf(Shape::Table).contains_key(Seq::empty()));
            assert((seq![part@] + Seq::<Seq<char>>::empty()).drop_first() =~= Seq::<Seq<char>>::empty());
            assert(seq![part@] + Seq::<Seq<char>>::empty() =~= seq![part@]);
        } else {
            match child(&*item, part) {
                Some(c) => {
                    if !is_table(c) {
                        return Err(quoted("Expected '", part, "' to be a table"));
                    }
                },
                None => {},
            }
        }
        match child_mut(item, part) {
            Some(c) => set_in_hypervisor(c, parents, i + 1, field, value),
            None => Err(quoted("Expected '", part, "' to be a table")),
        }
    }
}

/// Set a dotted field in the text of a shared hypervisor's file, keeping
/// its formatting: missing tables on the path are made, an integer field
/// stays an integer, anything else is written as text. The result parses
/// to the document with the field set.
pub fn set_hypervisor_field(contents: &str, file_name: &str, path: &str, value: &str) -> (r: Result<String, String>)
    ensures
        match edit_document_error(contents@) {
            Some(m) => r matches Err(e) && e@ == spec_parse_failure(file_name@, m),
            None => match spec_hypervisor_edit(
                edit_tree(contents@),
                split_char(path@, '.').drop_last(),
                split_char(path@, '.').last(),
                value@,
            ) {
                Ok(t) => r matches Ok(text) && edit_document_error(text@) is None && edit_tree(text@) == t,
                Err(e) => r matches Err(m) && m@ == e,
            },
        },
{
    let mut doc = match parse_document(contents) {
        Ok(d) => d,
        Err(m) => {
            return Err(parse_failure(file_name, m.as_str()));
        },
    };
    let fp = split_field_path(path);
    proof {
        assert(strings_view(fp.parents@).skip(0) =~= strings_view(fp.parents@));
    }
    let root = root_item_mut(&mut doc);
    match set_in_hypervisor(root, &fp.parents, 0, fp.field.as_str(), value) {
        Ok(()) => Ok(document_text(&doc)),
        Err(e) => Err(e),
    }
}

/// The text of `deployment.toml` with the deployment's name set, where
/// `deployment` is a regular table; otherwise the document as it was.
pub fn renamed_deployment_text(contents: &str, new_name: &str) -> (r: Result<String, String>)
    ensures
        match edit_document_error(contents@) {
            Some(m) => r matches Err(e) && e@ == spec_parse_failure("deployment.toml"@, m),
            None => r matches Ok(text) && edit_document_error(text@) is None && edit_tree(text@) == spec_renamed(
                edit_tree(contents@),
                new_name@,
            ),
        },
{
    let mut doc = match parse_document(contents) {
        Ok(d) => d,
        Err(m) => {
            return Err(parse_failure("deployment.toml", m.as_str()));
        },
    };
    let root = root_item_mut(&mut doc);
    let is_deployment_table = match child(&*root, "deployment") {
        Some(c) => is_table(c),
        None => false,
    };
    if is_deployment_table {
        match child_mut(root, "deployment") {
            Some(c) => match as_table_mut(c) {
                Some(tb) => {
                    table_insert(tb, "name", string_value(new_name));
                },
                None => {},
            },
            None => {},
        }
    }
    Ok(document_text(&doc))
}

/// Renaming a deployment: the old one must exist and the new name be free.
pub fn migrate_precheck(old_name: &str, new_name: &str, old_exists: bool, new_exists: bool) -> (r: Result<(), String>)
    ensures
        !old_exists ==> (r matches Err(e) && e@ == "Deployment '"@ + old_name@ + "' not found"@),
        old_exists && new_exists ==> (r matches Err(e) && e@ == "Deployment '"@ + new_name@
            + "' already exists"@),
        old_exists && !new_exists ==> r is Ok,
{
    if !old_exists {
        let mut e = string_from("Deployment '");
        push_str(&mut e, old_name);
        push_str(&mut e, "' not found");
        return Err(e);
    }
    if new_exists {
        let mut e = string_from("Deployment '");
        push_str(&mut e, new_name);
        push_str(&mut e, "' already exists");
        return Err(e);
    }
    Ok(())
}

/// After a rename, the global settings to write: the default follows the
/// deployment when it named the old one; otherwise nothing changes.
pub fn migrated_global(global: &GlobalConfig, old_name: &str, new_name: &str) -> (r: Option<GlobalConfig>)
    ensures
        opt_view(global.default_deployment) == Some(old_name@) ==> (r matches Some(g) && opt_view(
            g.default_deployment,
        ) == Some(new_name@)),
        opt_view(global.default_deployment) != Some(old_name@) ==> r is None,
{
    match &global.default_deployment {
        Some(d) => {
            if str_eq(d.as_str(), old_name) {
                Some(GlobalConfig { default_deployment: Some(string_from(new_name)) })
            } else {
                None
            }
        },
        None => None,
    }
}

/// A new hypervisor: no host yet, user `root`, the default port; a
/// Proxmox one gets node `PVE`, storages `local` and `local-lvm` and the
/// installer ISO.
pub fn new_hypervisor(name: &str, htype: HypervisorType) -> (r: HypervisorConfig)
    ensures
        r.hypervisor.name@ == name@,
        r.hypervisor.hypervisor_type == htype,
        r.credentials.host@ == Seq::<char>::empty(),
        r.credentials.ssh_user@ == "root"@,
        r.credentials.ssh_port is None,
        htype == HypervisorType::LinuxKvm ==> r.proxmox is None,
        htype == HypervisorType::Proxmox ==> (r.proxmox matches Some(p) && p.node@ == "PVE"@
            && p.iso_storage@ == "local"@ && p.disk_storage@ == "local-lvm"@ && p.iso_file@
            == "helios-install-vga.iso"@),
{
    HypervisorConfig {
        hypervisor: HypervisorMeta { name: string_from(name), hypervisor_type: htype },
        credentials: HypervisorCredentials {
            host: String::new(),
            ssh_user: string_from("root"),
            ssh_port: None,
        },
        proxmox: match htype {
            HypervisorType::Proxmox => Some(
                ProxmoxHypervisorConfig {
                    node: string_from("PVE"),
                    iso_storage: string_from("local"),
                    disk_storage: string_from("local-lvm"),
                    iso_file: string_from("helios-install-vga.iso"),
                },
            ),
            HypervisorType::LinuxKvm => None,
        },
    }
}

/// `Hypervisor '<name>' <what>`.
pub fn hypervisor_message(name: &str, what: &str) -> (r: String)
    ensures
        r@ == "Hypervisor '"@ + name@ + "' "@ + what@,
{
    let mut s = string_from("Hypervisor '");
    push_str(&mut s, name);
    push_str(&mut s, "' ");
    push_str(&mut s, what);
    s
}

} // verus!
