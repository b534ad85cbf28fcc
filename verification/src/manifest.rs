//! TOML documents, held as plain values to the depth that a manifest is
//! read at, and the package name of a guest read from its `Cargo.toml`.
use crate::text::same_text;
use toml::de::Error as TomlDeError;
use toml::Value as TomlEntry;
use vstd::prelude::*;

verus! {

/// `toml::de::Error`, carried through unchanged.
#[verifier::external_type_specification]
#[verifier::external_body]
pub struct ExTomlError(TomlDeError);

/// The view of an optional string.
pub open spec fn opt_view(s: Option<String>) -> Option<Seq<char>> {
    match s {
        Some(v) => Some(v@),
        None => None,
    }
}

/// A value inside a table of a TOML document: a string, or any other kind
/// of value.
#[derive(Clone, Debug, PartialEq, Eq)]
pub enum TomlItem {
    Str(String),
    Other,
}

/// A value at the top level of a TOML document: a string, a table with its
/// entries, or any other kind of value.
#[derive(Clone, Debug, PartialEq, Eq)]
pub enum TomlValue {
    Str(String),
    Table(Vec<(String, TomlItem)>),
    Other,
}

/// Abstract value of a `TomlItem`.
pub enum TomlItemView {
    Str(Seq<char>),
    Other,
}

/// Abstract value of a `TomlValue`.
pub enum TomlValueView {
    Str(Seq<char>),
    Table(Seq<(Seq<char>, TomlItemView)>),
    Other,
}

impl View for TomlItem {
    type V = TomlItemView;

    open spec fn view(&self) -> TomlItemView {
        match self {
            TomlItem::Str(s) => TomlItemView::Str(s@),
            TomlItem::Other => TomlItemView::Other,
        }
    }
}

impl View for TomlValue {
    type V = TomlValueView;

    open spec fn view(&self) -> TomlValueView {
        match self {
            TomlValue::Str(s) => TomlValueView::Str(s@),
            TomlValue::Table(t) => TomlValueView::Table(t@.map_values(|e: (String, TomlItem)| (e.0@, e.1@))),
            TomlValue::Other => TomlValueView::Other,
        }
    }
}

/// The abstract entries of a document.
pub open spec fn doc_view(doc: Seq<(String, TomlValue)>) -> Seq<(Seq<char>, TomlValueView)> {
    doc.map_values(|e: (String, TomlValue)| (e.0@, e.1@))
}

/// What `toml` reads from `text` as a document: `None` where `text` is no
/// TOML document; else its top-level entries, each table with its entries,
/// in the order in which `toml` hands them out.
pub uninterp spec fn toml_document(text: Seq<char>) -> Option<Seq<(Seq<char>, TomlValueView)>>;

/// Parses `text` as a TOML document with `toml::Table`'s `from_str`, and
/// converts its entries one for one into plain values: strings stay
/// strings, tables keep their entries (strings as strings), and any other
/// value is `Other`. The result is named by `toml_document`: the parse fails
/// exactly where the name is `None`.
#[verifier::external_body]
pub fn parse_toml_document(text: &str) -> (r: Result<Vec<(String, TomlValue)>, TomlDeError>)
    ensures
        r is Ok <==> toml_document(text@) is Some,
        r matches Ok(d) ==> toml_document(text@) == Some(doc_view(d@)),
{
    text.parse::<toml::Table>().map(|t| t.into_iter().map(|(k, v)| (k, match v {
        TomlEntry::String(s) => TomlValue::Str(s),
        TomlEntry::Table(i) => TomlValue::Table(i.into_iter().map(|(k, v)| (k, match v {
            TomlEntry::String(s) => TomlItem::Str(s),
            _ => TomlItem::Other,
        })).collect()),
        _ => TomlValue::Other,
    })).collect())
}

/// The value of the first entry named `key`, if any.
pub open spec fn entry_for<V>(entries: Seq<(Seq<char>, V)>, key: Seq<char>) -> Option<V>
    decreases entries.len(),
{
    if entries.len() == 0 {
        None
    } else if entries[0].0 == key {
        Some(entries[0].1)
    } else {
        entry_for(entries.drop_first(), key)
    }
}

/// The first entry named `key` is the one at `i`; with no entry named
/// `key`, there is none.
proof fn lemma_entry_for<V>(entries: Seq<(Seq<char>, V)>, key: Seq<char>, i: int)
    requires
        0 <= i <= entries.len(),
        forall|j: int| 0 <= j < i ==> #[trigger] entries[j].0 != key,
        i < entries.len() ==> entries[i].0 == key,
    ensures
        entry_for(entries, key) == if i < entries.len() {
            Some(entries[i].1)
        } else {
            None::<V>
        },
    decreases i,
{
    if i > 0 {
        assert(entries[0].0 != key);
        assert forall|j: int| 0 <= j < i - 1 implies #[trigger] entries.drop_first()[j].0 != key by {
            assert(entries.drop_first()[j] == entries[j + 1]);
        }
        lemma_entry_for(entries.drop_first(), key, i - 1);
    }
}

/// The position of the first entry named `key`, if any.
fn find_entry<T>(entries: &Vec<(String, T)>, key: &str) -> (r: Option<usize>)
    ensures
        match r {
            Some(i) => i < entries@.len() && entries@[i as int].0@ == key@ && forall|j: int|
                0 <= j < i ==> #[trigger] entries@[j].0@ != key@,
            None => forall|j: int| 0 <= j < entries@.len() ==> #[trigger] entries@[j].0@ != key@,
        },
{
    let mut i: usize = 0;
    while i < entries.len()
        invariant
            i <= entries@.len(),
            forall|j: int| 0 <= j < i ==> #[trigger] entries@[j].0@ != key@,
        decreases entries.len() - i,
    {
        if same_text(entries[i].0.as_str(), key) {
            return Some(i);
        }
        i = i + 1;
    }
    None
}

/// The package name a document gives: the string at `name` in the table
/// at `package`.
pub open spec fn package_name_in(doc: Seq<(Seq<char>, TomlValueView)>) -> Option<Seq<char>> {
    match entry_for(doc, "package"@) {
        Some(TomlValueView::Table(t)) => match entry_for(t, "name"@) {
            Some(TomlItemView::Str(n)) => Some(n),
            _ => None,
        },
        _ => None,
    }
}

/// The package name of a manifest document: the string at `name` in the
/// table at `package`, if there is one.
pub fn package_name_of(doc: &Vec<(String, TomlValue)>) -> (r: Option<String>)
    ensures
        opt_view(r) == package_name_in(doc_view(doc@)),
{
    let ghost dv = doc_view(doc@);
    match find_entry(doc, "package") {
        None => {
            proof {
                lemma_entry_for(dv, "package"@, dv.len() as int);
            }
            None
        },
        Some(i) => {
            proof {
                lemma_entry_for(dv, "package"@, i as int);
            }
            match &doc[i].1 {
                TomlValue::Table(t) => {
                    let ghost tv = t@.map_values(|e: (String, TomlItem)| (e.0@, e.1@));
                    assert(dv[i as int].1 == TomlValueView::Table(tv));
                    match find_entry(t, "name") {
                        None => {
                            proof {
                                lemma_entry_for(tv, "name"@, tv.len() as int);
                            }
                            None
                        },
                        Some(j) => {
                            proof {
                                lemma_entry_for(tv, "name"@, j as int);
                            }
                            match &t[j].1 {
                                TomlItem::Str(n) => Some(n.clone()),
                                TomlItem::Other => None,
                            }
                        },
                    }
                },
                _ => None,
            }
        },
    }
}

/// The package name is found by key: where the first entry keyed `package`
/// of a document is a table whose first entry keyed `name` is the string
/// `n`, the package name is `n`, whatever other entries the document and
/// the table have and in whatever order.
pub proof fn lemma_package_name_by_key(
    doc: Seq<(Seq<char>, TomlValueView)>,
    i: int,
    table: Seq<(Seq<char>, TomlItemView)>,
    j: int,
    n: Seq<char>,
)
    requires
        0 <= i < doc.len(),
        doc[i].0 == "package"@,
        forall|k: int| 0 <= k < i ==> #[trigger] doc[k].0 != "package"@,
        doc[i].1 == TomlValueView::Table(table),
        0 <= j < table.len(),
        table[j].0 == "name"@,
        forall|k: int| 0 <= k < j ==> #[trigger] table[k].0 != "name"@,
        table[j].1 == TomlItemView::Str(n),
    ensures
        package_name_in(doc) == Some(n),
{
    lemma_entry_for(doc, "package"@, i);
    lemma_entry_for(table, "name"@, j);
}

/// A document with no entry keyed `package`, or whose first such entry is no
/// table, names no package.
pub proof fn lemma_no_package_no_name(doc: Seq<(Seq<char>, TomlValueView)>)
    ensures
        (forall|k: int| 0 <= k < doc.len() ==> #[trigger] doc[k].0 != "package"@) ==> package_name_in(doc) is None,
        forall|i: int|
            0 <= i < doc.len() && doc[i].0 == "package"@ && (forall|k: int| 0 <= k < i ==> #[trigger] doc[k].0
                != "package"@) && !(doc[i].1 is Table) ==> package_name_in(doc) is None,
{
    if forall|k: int| 0 <= k < doc.len() ==> #[trigger] doc[k].0 != "package"@ {
        lemma_entry_for(doc, "package"@, doc.len() as int);
    }
    assert forall|i: int|
        0 <= i < doc.len() && doc[i].0 == "package"@ && (forall|k: int| 0 <= k < i ==> #[trigger] doc[k].0
            != "package"@) && !(doc[i].1 is Table) implies package_name_in(doc) is None by {
        lemma_entry_for(doc, "package"@, i);
    }
}

} // verus!
