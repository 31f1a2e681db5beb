//! Document values: the parsed form of a configuration or theme text, and
//! the trusted bridge to the `toml` crate that produces and renders them.
//!
//! A parsed document is modelled by the ghost type [`DocView`]: tables are
//! maps from key to value, so the model carries no entry order. Executable
//! code reaches a document value one layer at a time through [`ValueKind`].

use vstd::prelude::*;

verus! {

/// The mathematical model of a document value.
pub enum DocView {
    /// A string.
    Text(Seq<char>),
    /// An integer.
    Int(int),
    /// A boolean.
    Flag(bool),
    /// An array of values.
    List(Seq<DocView>),
    /// A table: a finite map from key to value.
    Table(Map<Seq<char>, DocView>),
    /// A value of a kind the resolvers reject (float, datetime).
    Other,
}

#[verifier::external_type_specification]
#[verifier::external_body]
pub struct ExTomlValue(toml::Value);

/// What a parsed document value holds. Chance plays no part in it: the same
/// value always has the same model.
pub uninterp spec fn value_model(v: toml::Value) -> DocView;

/// The outcome of parsing a text as a document: `None` when the text is not
/// well-formed, otherwise the model of the parsed value. Parsing is a
/// function of the text alone.
pub uninterp spec fn toml_doc_of(s: Seq<char>) -> Option<DocView>;

/// The text that rendering a fully-defined document value produces. For a
/// model without `Other` the value holds nothing beyond its model, so the
/// text is a function of the model alone; the name is never applied to a
/// model containing `Other`, whose float or datetime payload it erases.
pub uninterp spec fn toml_text_of(d: DocView) -> Seq<char>;

/// A document value with its outermost layer exposed as plain data.
pub enum ValueKind {
    Text(String),
    Int(i64),
    Flag(bool),
    List(Vec<toml::Value>),
    Table(Vec<(String, toml::Value)>),
    Other,
}

/// The model of a table given as a sequence of key/value entries; a repeated
/// key keeps its last entry, as a keyed map does.
pub open spec fn entries_model(s: Seq<(String, toml::Value)>) -> Map<Seq<char>, DocView>
    decreases s.len(),
{
    if s.len() == 0 {
        Map::empty()
    } else {
        entries_model(s.drop_last()).insert(s.last().0@, value_model(s.last().1))
    }
}

/// The model of an exposed layer.
pub open spec fn kind_model(k: ValueKind) -> DocView {
    match k {
        ValueKind::Text(s) => DocView::Text(s@),
        ValueKind::Int(i) => DocView::Int(i as int),
        ValueKind::Flag(b) => DocView::Flag(b),
        ValueKind::List(items) => DocView::List(
            Seq::new(items@.len(), |i: int| value_model(items@[i])),
        ),
        ValueKind::Table(entries) => DocView::Table(entries_model(entries@)),
        ValueKind::Other => DocView::Other,
    }
}

/// No two entries share a key.
pub open spec fn distinct_keys(s: Seq<(String, toml::Value)>) -> bool {
    forall|i: int, j: int| 0 <= i < j < s.len() ==> s[i].0@ != s[j].0@
}

/// A model is fully defined when no `Other` hides in it: the value then
/// holds nothing (float, datetime) that the model does not carry.
pub open spec fn doc_defined(d: DocView) -> bool
    decreases d,
{
    match d {
        DocView::Text(_) => true,
        DocView::Int(_) => true,
        DocView::Flag(_) => true,
        DocView::List(items) => forall|i: int|
            0 <= i < items.len() ==> doc_defined(#[trigger] items[i]),
        DocView::Table(m) => forall|k: Seq<char>|
            m.contains_key(k) ==> doc_defined(#[trigger] m[k]),
        DocView::Other => false,
    }
}

/// Relies on `toml::from_str::<toml::Value>`: parses a text as a document.
/// The result is a function of the text alone.
#[verifier::external_body]
pub(crate) fn parse_value(s: &str) -> (r: Result<toml::Value, ()>)
    ensures
        match r {
            Ok(v) => toml_doc_of(s@) == Some(value_model(v)),
            Err(()) => toml_doc_of(s@) is None,
        },
{
    toml::from_str::<toml::Value>(s).map_err(|_| ())
}

/// Relies on the variants of `toml::Value` and on `toml::map::Map` iteration:
/// exposes the outermost layer of a value as plain data. The map is keyed, so
/// a table's entries have pairwise distinct keys.
#[verifier::external_body]
pub(crate) fn classify(v: toml::Value) -> (r: ValueKind)
    ensures
        kind_model(r) == value_model(v),
        r matches ValueKind::Table(entries) ==> distinct_keys(entries@),
{
    match v {
        toml::Value::String(s) => ValueKind::Text(s),
        toml::Value::Integer(i) => ValueKind::Int(i),
        toml::Value::Boolean(b) => ValueKind::Flag(b),
        toml::Value::Array(items) => ValueKind::List(items),
        toml::Value::Table(t) => ValueKind::Table(t.into_iter().collect()),
        _ => ValueKind::Other,
    }
}

/// Relies on `toml::Value::clone`.
#[verifier::external_body]
pub(crate) fn clone_value(v: &toml::Value) -> (r: toml::Value)
    ensures
        value_model(r) == value_model(*v),
{
    v.clone()
}

/// Relies on the variants of `toml::Value` and on `toml::map::Map`
/// collection: builds the value whose outermost layer is the given one.
#[verifier::external_body]
pub(crate) fn value_of(k: ValueKind) -> (r: toml::Value)
    requires
        !(k is Other),
    ensures
        value_model(r) == kind_model(k),
{
    match k {
        ValueKind::Text(s) => toml::Value::String(s),
        ValueKind::Int(i) => toml::Value::Integer(i),
        ValueKind::Flag(b) => toml::Value::Boolean(b),
        ValueKind::List(items) => toml::Value::Array(items),
        ValueKind::Table(entries) => toml::Value::Table(entries.into_iter().collect()),
        ValueKind::Other => toml::Value::Boolean(false),
    }
}

/// Relies on `toml::to_string`: renders a document value as text. A value
/// whose model is fully defined holds nothing beyond its model, so the text
/// is a function of the model alone; a table of such values always renders,
/// and parsing the rendered text gives the document back.
#[verifier::external_body]
pub(crate) fn write_value(v: &toml::Value) -> (r: Result<String, ()>)
    requires
        doc_defined(value_model(*v)),
    ensures
        value_model(*v) is Table ==> r is Ok,
        r matches Ok(s) ==> s@ == toml_text_of(value_model(*v)),
        r matches Ok(s) ==> toml_doc_of(s@) == Some(value_model(*v)),
{
    toml::to_string(v).map_err(|_| ())
}

pub proof fn lemma_entries_model_found(s: Seq<(String, toml::Value)>, i: int)
    requires
        distinct_keys(s),
        0 <= i < s.len(),
    ensures
        entries_model(s).contains_key(s[i].0@),
        entries_model(s)[s[i].0@] == value_model(s[i].1),
    decreases s.len(),
{
    if i < s.len() - 1 {
        lemma_entries_model_found(s.drop_last(), i);
    }
}

pub proof fn lemma_entries_model_absent(s: Seq<(String, toml::Value)>, key: Seq<char>)
    requires
        forall|i: int| 0 <= i < s.len() ==> s[i].0@ != key,
    ensures
        !entries_model(s).contains_key(key),
    decreases s.len(),
{
    if s.len() > 0 {
        lemma_entries_model_absent(s.drop_last(), key);
    }
}

pub proof fn lemma_entries_model_dom(s: Seq<(String, toml::Value)>, allowed: Set<Seq<char>>)
    requires
        forall|i: int| 0 <= i < s.len() ==> allowed.contains(#[trigger] s[i].0@),
    ensures
        entries_model(s).dom().subset_of(allowed),
    decreases s.len(),
{
    if s.len() > 0 {
        lemma_entries_model_dom(s.drop_last(), allowed);
    }
}

/// Looks a key up among a table's entries, handing back a copy of its value.
pub(crate) fn find_value(entries: &Vec<(String, toml::Value)>, key: &String) -> (r: Option<
    toml::Value,
>)
    requires
        distinct_keys(entries@),
    ensures
        match r {
            Some(v) => entries_model(entries@).contains_key(key@) && entries_model(entries@)[key@]
                == value_model(v),
            None => !entries_model(entries@).contains_key(key@),
        },
{
    let mut i: usize = 0;
    while i < entries.len()
        invariant
            distinct_keys(entries@),
            0 <= i <= entries@.len(),
            forall|j: int| 0 <= j < i ==> entries@[j].0@ != key@,
        decreases entries@.len() - i,
    {
        if entries[i].0 == *key {
            let v = clone_value(&entries[i].1);
            proof {
                lemma_entries_model_found(entries@, i as int);
            }
            return Some(v);
        }
        i = i + 1;
    }
    proof {
        lemma_entries_model_absent(entries@, key@);
    }
    None
}


/// A list all of whose elements are strings.
pub open spec fn spec_text_list(items: Seq<DocView>) -> Option<Seq<Seq<char>>> {
    if forall|i: int| 0 <= i < items.len() ==> items[i] is Text {
        Some(Seq::new(items.len(), |i: int| items[i]->Text_0))
    } else {
        None
    }
}

/// Reads a list all of whose elements must be strings.
pub(crate) fn text_list_values(vals: Vec<toml::Value>) -> (r: Result<Vec<String>, ()>)
    ensures
        match spec_text_list(Seq::new(vals@.len(), |i: int| value_model(vals@[i]))) {
            Some(texts) => r matches Ok(out) && out.deep_view() == texts,
            None => r is Err,
        },
{
    let ghost items = Seq::new(vals@.len(), |i: int| value_model(vals@[i]));
    let mut out: Vec<String> = Vec::new();
    let mut i: usize = 0;
    while i < vals.len()
        invariant
            0 <= i <= vals@.len(),
            items == Seq::new(vals@.len(), |k: int| value_model(vals@[k])),
            out@.len() == i,
            forall|j: int| 0 <= j < i ==> #[trigger] items[j] is Text,
            forall|j: int| 0 <= j < i ==> #[trigger] out@[j]@ == items[j]->Text_0,
        decreases vals@.len() - i,
    {
        match classify(clone_value(&vals[i])) {
            ValueKind::Text(s) => {
                out.push(s);
            },
            _ => {
                proof {
                    assert(!(items[i as int] is Text));
                }
                return Err(());
            },
        }
        i = i + 1;
    }
    proof {
        assert(out.deep_view() =~= spec_text_list(items).unwrap());
    }
    Ok(out)
}

} // verus!
