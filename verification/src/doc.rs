//! A structured document tree shared by the JSON and YAML lockfile
//! surfaces, together with the trusted wrappers that produce a tree from
//! raw text.

use vstd::prelude::*;
use crate::text::str_eq;

verus! {

/// One node of a parsed structured document (a JSON or YAML value).
///
/// Numbers carry their value when they are unsigned integers, and their
/// textual rendering either way; the engine never reads a number any
/// other way (ecosystem discriminators are small integers or short
/// version strings such as `5.4`).  Object entries keep the order in
/// which the underlying map iterates them.
pub enum DocValue {
    Null,
    Bool(bool),
    Number(Option<u64>, String),
    Text(String),
    List(Vec<DocValue>),
    Object(Vec<(String, DocValue)>),
}

/// Looks a key up among object entries; when a key repeats, the latest
/// entry wins, as it does in the maps the parsers produce.
pub open spec fn spec_obj_get(entries: Seq<(String, DocValue)>, key: Seq<char>) -> Option<
    DocValue,
>
    decreases entries.len(),
{
    if entries.len() == 0 {
        None
    } else if entries.last().0@ == key {
        Some(entries.last().1)
    } else {
        spec_obj_get(entries.drop_last(), key)
    }
}

/// Looks a key up in a document node: `None` unless the node is an
/// object holding the key, as `Value::get` behaves on both surfaces.
pub open spec fn spec_doc_get(d: DocValue, key: Seq<char>) -> Option<DocValue> {
    match d {
        DocValue::Object(entries) => spec_obj_get(entries@, key),
        _ => None,
    }
}

impl DocValue {
    /// Field lookup, `None` on any non-object node.
    pub fn get<'a>(&'a self, key: &str) -> (r: Option<&'a DocValue>)
        ensures
            match r {
                Some(v) => spec_doc_get(*self, key@) == Some(*v),
                None => spec_doc_get(*self, key@) is None,
            },
    {
        match self {
            DocValue::Object(entries) => {
                let ghost all = entries@;
                proof {
                    assert(all.take(all.len() as int) =~= all);
                }
                let mut idx = entries.len();
                while idx > 0
                    invariant
                        idx <= entries.len(),
                        all == entries@,
                        *self == DocValue::Object(*entries),
                        spec_obj_get(all, key@) == spec_obj_get(all.take(idx as int), key@),
                    decreases idx,
                {
                    let entry = &entries[idx - 1];
                    proof {
                        assert(all.take(idx as int).last() == all[idx - 1]);
                        assert(all.take(idx as int).drop_last() =~= all.take(idx - 1));
                    }
                    if str_eq(entry.0.as_str(), key) {
                        proof {
                            assert(spec_obj_get(all.take(idx as int), key@) == Some(entry.1));
                        }
                        return Some(&entry.1);
                    }
                    idx -= 1;
                }
                proof {
                    assert(all.take(0) =~= Seq::<(String, DocValue)>::empty());
                }
                None
            },
            _ => None,
        }
    }
}

/// What parsing text as JSON yields: a function of the text alone,
/// `None` exactly when the text is not valid JSON.
pub uninterp spec fn json_doc(s: Seq<char>) -> Option<DocValue>;

/// What parsing text as YAML yields: a function of the text alone,
/// `None` exactly when the text is not valid YAML.
pub uninterp spec fn yaml_doc(s: Seq<char>) -> Option<DocValue>;

#[verifier::external_type_specification]
#[verifier::external_body]
pub struct ExJsonValue(serde_json::Value);

#[allow(deprecated)]
#[verifier::external_type_specification]
#[verifier::external_body]
pub struct ExYamlValue(serde_yml::Value);

/// Relies on `serde_json::Value`: rebuilds the parsed tree as a
/// `DocValue`, one arm per variant, keeping object order as the map
/// iterates it.
#[verifier::external_body]
fn doc_of_json(v: serde_json::Value) -> DocValue {
    match v {
        serde_json::Value::Null => DocValue::Null,
        serde_json::Value::Bool(b) => DocValue::Bool(b),
        serde_json::Value::Number(n) => DocValue::Number(n.as_u64(), n.to_string()),
        serde_json::Value::String(s) => DocValue::Text(s),
        serde_json::Value::Array(l) => DocValue::List(l.into_iter().map(doc_of_json).collect()),
        serde_json::Value::Object(o) => DocValue::Object(
            o.into_iter().map(|(k, x)| (k, doc_of_json(x))).collect(),
        ),
    }
}

/// Relies on `serde_yml::Value`: rebuilds the parsed tree as a
/// `DocValue`, one arm per variant, keeping mapping order as the map
/// iterates it; a tagged node stands for its inner value.
#[allow(deprecated)]
#[verifier::external_body]
fn doc_of_yaml(v: serde_yml::Value) -> DocValue {
    match v {
        serde_yml::Value::Null => DocValue::Null,
        serde_yml::Value::Bool(b) => DocValue::Bool(b),
        serde_yml::Value::Number(n) => DocValue::Number(n.as_u64(), n.to_string()),
        serde_yml::Value::String(s) => DocValue::Text(s),
        serde_yml::Value::Sequence(l) => DocValue::List(l.into_iter().map(doc_of_yaml).collect()),
        serde_yml::Value::Mapping(o) => DocValue::Object(
            o.into_iter().map(|(k, x)| (k, doc_of_yaml(x))).collect(),
        ),
        serde_yml::Value::Tagged(t) => doc_of_yaml(t.value().clone()),
    }
}

/// Relies on `serde_json::from_str::<serde_json::Value>`: parsing is a
/// function of the text alone and fails exactly on invalid JSON.
#[verifier::external_body]
pub(crate) fn parse_json(s: &str) -> (r: Option<DocValue>)
    ensures
        r == json_doc(s@),
{
    serde_json::from_str::<serde_json::Value>(s).ok().map(doc_of_json)
}

/// Relies on `serde_yml::from_str::<serde_yml::Value>`: parsing is a
/// function of the text alone and fails exactly on invalid YAML.
#[allow(deprecated)]
#[verifier::external_body]
pub(crate) fn parse_yaml(s: &str) -> (r: Option<DocValue>)
    ensures
        r == yaml_doc(s@),
{
    serde_yml::from_str::<serde_yml::Value>(s).ok().map(doc_of_yaml)
}

} // verus!
