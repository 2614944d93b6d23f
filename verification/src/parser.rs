//! The lockfile detector and parser: classifies the schema revision of a
//! raw lockfile and maps the parsed document onto the canonical model,
//! failing with a classified error where the document does not fit.
//!
//! Every shape rule is stated twice: an `..._ok` predicate saying when a
//! document fragment fits, and a `..._matches` relation pinning the model
//! value built from it.  The executable functions are proved against
//! both, so a parse succeeds exactly on the documents the predicates
//! accept and the result is determined by the document.

use vstd::prelude::*;
use crate::doc::{DocValue, json_doc, parse_json, parse_yaml, spec_doc_get, yaml_doc};
use crate::text::{contains_at, contains_spec, str_contains, str_eq, str_starts_with};
use crate::types::{
    Engine,
    FirstLevelDependency,
    LockDependency,
    NpmLock,
    NpmLockEngines,
    NpmLockVersion1,
    NpmLockVersion2,
    NpmLockVersion3,
    PackageJson,
    PackageManager,
    PackageManagerLock,
    ParseError,
    PnpmImporterV5,
    PnpmImporterV6,
    PnpmLock,
    PnpmLockV5,
    PnpmLockV6,
    ResolvedDependency,
    VersionedDependency,
    VersionedDependencyOrResolved,
    YarnLockV2,
};
use vstd::string::StrSliceExecFns;

verus! {

/// The engine a constraint key names: exactly the three known names.
pub open spec fn spec_engine_of(k: Seq<char>) -> Option<Engine> {
    if k == "Node"@ {
        Some(Engine::Node)
    } else if k == "Npm"@ {
        Some(Engine::Npm)
    } else if k == "Yarn"@ {
        Some(Engine::Yarn)
    } else {
        None
    }
}

fn engine_of_key(k: &str) -> (r: Option<Engine>)
    ensures
        r == spec_engine_of(k@),
{
    if str_eq(k, "Node") {
        Some(Engine::Node)
    } else if str_eq(k, "Npm") {
        Some(Engine::Npm)
    } else if str_eq(k, "Yarn") {
        Some(Engine::Yarn)
    } else {
        None
    }
}

/// Every entry names a known engine and holds a text constraint.
pub open spec fn engine_entries_ok(es: Seq<(String, DocValue)>) -> bool {
    forall|i: int|
        0 <= i < es.len() ==> (#[trigger] spec_engine_of(es[i].0@)) is Some && es[i].1 is Text
}

/// The engine mapping built from such entries, in order.
pub open spec fn engine_entries_matches(es: Seq<(String, DocValue)>, out: Seq<(Engine, String)>) -> bool {
    &&& out.len() == es.len()
    &&& forall|i: int|
        0 <= i < es.len() ==> spec_engine_of(es[i].0@) == Some((#[trigger] out[i]).0) && es[i].1
            == DocValue::Text(out[i].1)
}

fn parse_engine_entries(es: &Vec<(String, DocValue)>) -> (r: Option<Vec<(Engine, String)>>)
    ensures
        match r {
            Some(v) => engine_entries_ok(es@) && engine_entries_matches(es@, v@),
            None => !engine_entries_ok(es@),
        },
{
    let mut out: Vec<(Engine, String)> = Vec::new();
    let mut i: usize = 0;
    while i < es.len()
        invariant
            i <= es.len(),
            out@.len() == i,
            forall|j: int|
                0 <= j < i ==> (#[trigger] spec_engine_of(es@[j].0@)) is Some && es@[j].1 is Text,
            forall|j: int|
                0 <= j < i ==> spec_engine_of(es@[j].0@) == Some((#[trigger] out@[j]).0)
                    && es@[j].1 == DocValue::Text(out@[j].1),
        decreases es.len() - i,
    {
        let entry = &es[i];
        let engine = match engine_of_key(entry.0.as_str()) {
            Some(e) => e,
            None => {
                return None;
            },
        };
        match &entry.1 {
            DocValue::Text(t) => {
                out.push((engine, t.clone()));
            },
            _ => {
                return None;
            },
        }
        i += 1;
    }
    Some(out)
}

/// Every element is text.
pub open spec fn text_list_ok(l: Seq<DocValue>) -> bool {
    forall|i: int| 0 <= i < l.len() ==> (#[trigger] l[i]) is Text
}

/// The list of strings read from such elements, in order.
pub open spec fn text_list_matches(l: Seq<DocValue>, out: Seq<String>) -> bool {
    &&& out.len() == l.len()
    &&& forall|i: int| 0 <= i < l.len() ==> l[i] == DocValue::Text(#[trigger] out[i])
}

fn parse_text_list(l: &Vec<DocValue>) -> (r: Option<Vec<String>>)
    ensures
        match r {
            Some(v) => text_list_ok(l@) && text_list_matches(l@, v@),
            None => !text_list_ok(l@),
        },
{
    let mut out: Vec<String> = Vec::new();
    let mut i: usize = 0;
    while i < l.len()
        invariant
            i <= l.len(),
            out@.len() == i,
            forall|j: int| 0 <= j < i ==> (#[trigger] l@[j]) is Text,
            forall|j: int| 0 <= j < i ==> l@[j] == DocValue::Text(#[trigger] out@[j]),
        decreases l.len() - i,
    {
        match &l[i] {
            DocValue::Text(t) => {
                out.push(t.clone());
            },
            _ => {
                return None;
            },
        }
        i += 1;
    }
    Some(out)
}

/// Every entry's value is text.
pub open spec fn text_entries_ok(es: Seq<(String, DocValue)>) -> bool {
    forall|i: int| 0 <= i < es.len() ==> (#[trigger] es[i]).1 is Text
}

/// The name-to-text mapping read from such entries, in order.
pub open spec fn text_entries_matches(es: Seq<(String, DocValue)>, out: Seq<(String, String)>) -> bool {
    &&& out.len() == es.len()
    &&& forall|i: int|
        0 <= i < es.len() ==> (#[trigger] out[i]).0 == es[i].0 && es[i].1 == DocValue::Text(
            out[i].1,
        )
}

fn parse_text_entries(es: &Vec<(String, DocValue)>) -> (r: Option<Vec<(String, String)>>)
    ensures
        match r {
            Some(v) => text_entries_ok(es@) && text_entries_matches(es@, v@),
            None => !text_entries_ok(es@),
        },
{
    let mut out: Vec<(String, String)> = Vec::new();
    let mut i: usize = 0;
    while i < es.len()
        invariant
            i <= es.len(),
            out@.len() == i,
            forall|j: int| 0 <= j < i ==> (#[trigger] es@[j]).1 is Text,
            forall|j: int|
                0 <= j < i ==> (#[trigger] out@[j]).0 == es@[j].0 && es@[j].1 == DocValue::Text(
                    out@[j].1,
                ),
        decreases es.len() - i,
    {
        let entry = &es[i];
        match &entry.1 {
            DocValue::Text(t) => {
                out.push((entry.0.clone(), t.clone()));
            },
            _ => {
                return None;
            },
        }
        i += 1;
    }
    Some(out)
}

/// An engines value fits: a mapping of known engines, or a list of text.
pub open spec fn engines_value_ok(d: DocValue) -> bool {
    match d {
        DocValue::Object(es) => engine_entries_ok(es@),
        DocValue::List(l) => text_list_ok(l@),
        _ => false,
    }
}

/// The engines variant built from such a value: the mapping shape wins
/// when the node is a mapping, the list shape when it is a list.
pub open spec fn engines_value_matches(d: DocValue, e: NpmLockEngines) -> bool {
    match e {
        NpmLockEngines::Object(m) => d is Object && engine_entries_matches(d->Object_0@, m@),
        NpmLockEngines::Array(a) => d is List && text_list_matches(d->List_0@, a@),
    }
}

fn parse_engines_value(d: &DocValue) -> (r: Option<NpmLockEngines>)
    ensures
        match r {
            Some(e) => engines_value_ok(*d) && engines_value_matches(*d, e),
            None => !engines_value_ok(*d),
        },
{
    match d {
        DocValue::Object(es) => match parse_engine_entries(es) {
            Some(m) => Some(NpmLockEngines::Object(m)),
            None => None,
        },
        DocValue::List(l) => match parse_text_list(l) {
            Some(a) => Some(NpmLockEngines::Array(a)),
            None => None,
        },
        _ => None,
    }
}

/// The optional `engines` field fits: absent, null, or a fitting value.
pub open spec fn engines_field_ok(d: DocValue) -> bool {
    match spec_doc_get(d, "engines"@) {
        None => true,
        Some(DocValue::Null) => true,
        Some(e) => engines_value_ok(e),
    }
}

/// What the optional `engines` field yields.
pub open spec fn engines_field_matches(d: DocValue, eng: Option<NpmLockEngines>) -> bool {
    match spec_doc_get(d, "engines"@) {
        None => eng is None,
        Some(DocValue::Null) => eng is None,
        Some(e) => eng is Some && engines_value_matches(e, eng->0),
    }
}

/// `Ok(engines)` when the field fits, `Err(())` when it does not.
fn parse_engines_field(d: &DocValue) -> (r: Result<Option<NpmLockEngines>, ()>)
    ensures
        match r {
            Ok(eng) => engines_field_ok(*d) && engines_field_matches(*d, eng),
            Err(_) => !engines_field_ok(*d),
        },
{
    match d.get("engines") {
        None => Ok(None),
        Some(DocValue::Null) => Ok(None),
        Some(e) => match parse_engines_value(e) {
            Some(en) => Ok(Some(en)),
            None => Err(()),
        },
    }
}

/// An exact-version entry fits: a text `version` field and a fitting
/// optional `engines` field.
pub open spec fn versioned_ok(d: DocValue) -> bool {
    &&& spec_doc_get(d, "version"@) matches Some(DocValue::Text(_))
    &&& engines_field_ok(d)
}

/// The exact-version entry built from such a node.
pub open spec fn versioned_matches(d: DocValue, v: VersionedDependency) -> bool {
    &&& spec_doc_get(d, "version"@) == Some(DocValue::Text(v.version))
    &&& engines_field_matches(d, v.engines)
}

fn parse_versioned(d: &DocValue) -> (r: Option<VersionedDependency>)
    ensures
        match r {
            Some(v) => versioned_ok(*d) && versioned_matches(*d, v),
            None => !versioned_ok(*d),
        },
{
    let version = match d.get("version") {
        Some(DocValue::Text(t)) => t.clone(),
        _ => {
            return None;
        },
    };
    match parse_engines_field(d) {
        Ok(engines) => Some(VersionedDependency { version, engines }),
        Err(_) => None,
    }
}

/// An aliasing record fits: a boolean `link` field, an absent, null or
/// text `resolved` field, and a fitting optional `engines` field.
pub open spec fn resolved_ok(d: DocValue) -> bool {
    &&& spec_doc_get(d, "link"@) matches Some(DocValue::Bool(_))
    &&& match spec_doc_get(d, "resolved"@) {
        None => true,
        Some(DocValue::Null) => true,
        Some(DocValue::Text(_)) => true,
        Some(_) => false,
    }
    &&& engines_field_ok(d)
}

/// The aliasing record built from such a node.
pub open spec fn resolved_matches(d: DocValue, rd: ResolvedDependency) -> bool {
    &&& spec_doc_get(d, "link"@) == Some(DocValue::Bool(rd.link))
    &&& match spec_doc_get(d, "resolved"@) {
        None => rd.resolved is None,
        Some(DocValue::Null) => rd.resolved is None,
        Some(p) => rd.resolved is Some && p == DocValue::Text(rd.resolved->0),
    }
    &&& engines_field_matches(d, rd.engines)
}

fn parse_resolved(d: &DocValue) -> (r: Option<ResolvedDependency>)
    ensures
        match r {
            Some(rd) => resolved_ok(*d) && resolved_matches(*d, rd),
            None => !resolved_ok(*d),
        },
{
    let link = match d.get("link") {
        Some(DocValue::Bool(b)) => *b,
        _ => {
            return None;
        },
    };
    let resolved = match d.get("resolved") {
        None => None,
        Some(DocValue::Null) => None,
        Some(DocValue::Text(t)) => Some(t.clone()),
        Some(_) => {
            return None;
        },
    };
    match parse_engines_field(d) {
        Ok(engines) => Some(ResolvedDependency { resolved, link, engines }),
        Err(_) => None,
    }
}

/// A mapping value fits when either variant shape fits; the
/// exact-version shape is tried first, as the model declares it first.
pub open spec fn dep_entry_ok(d: DocValue) -> bool {
    versioned_ok(d) || resolved_ok(d)
}

/// The variant built from a mapping value.
pub open spec fn dep_entry_matches(d: DocValue, v: VersionedDependencyOrResolved) -> bool {
    match v {
        VersionedDependencyOrResolved::Versioned(vd) => versioned_ok(d) && versioned_matches(
            d,
            vd,
        ),
        VersionedDependencyOrResolved::Resolved(rd) => !versioned_ok(d) && resolved_ok(d)
            && resolved_matches(d, rd),
    }
}

fn parse_dep_entry(d: &DocValue) -> (r: Option<VersionedDependencyOrResolved>)
    ensures
        match r {
            Some(v) => dep_entry_ok(*d) && dep_entry_matches(*d, v),
            None => !dep_entry_ok(*d),
        },
{
    match parse_versioned(d) {
        Some(vd) => Some(VersionedDependencyOrResolved::Versioned(vd)),
        None => match parse_resolved(d) {
            Some(rd) => Some(VersionedDependencyOrResolved::Resolved(rd)),
            None => None,
        },
    }
}

/// Every value of the mapping fits one of the two entry shapes.
pub open spec fn dep_map_ok(es: Seq<(String, DocValue)>) -> bool {
    forall|i: int| 0 <= i < es.len() ==> dep_entry_ok((#[trigger] es[i]).1)
}

/// The mapping built from such entries, in order, keys kept.
pub open spec fn dep_map_matches(
    es: Seq<(String, DocValue)>,
    out: Seq<(String, VersionedDependencyOrResolved)>,
) -> bool {
    &&& out.len() == es.len()
    &&& forall|i: int|
        0 <= i < es.len() ==> (#[trigger] out[i]).0 == es[i].0 && dep_entry_matches(
            es[i].1,
            out[i].1,
        )
}

fn parse_dep_map(es: &Vec<(String, DocValue)>) -> (r: Option<
    Vec<(String, VersionedDependencyOrResolved)>,
>)
    ensures
        match r {
            Some(v) => dep_map_ok(es@) && dep_map_matches(es@, v@),
            None => !dep_map_ok(es@),
        },
{
    let mut out: Vec<(String, VersionedDependencyOrResolved)> = Vec::new();
    let mut i: usize = 0;
    while i < es.len()
        invariant
            i <= es.len(),
            out@.len() == i,
            forall|j: int| 0 <= j < i ==> dep_entry_ok((#[trigger] es@[j]).1),
            forall|j: int|
                0 <= j < i ==> (#[trigger] out@[j]).0 == es@[j].0 && dep_entry_matches(
                    es@[j].1,
                    out@[j].1,
                ),
        decreases es.len() - i,
    {
        let entry = &es[i];
        match parse_dep_entry(&entry.1) {
            Some(v) => {
                out.push((entry.0.clone(), v));
            },
            None => {
                return None;
            },
        }
        i += 1;
    }
    Some(out)
}

/// A required mapping field fits: absent (defaulting to empty) or a
/// mapping whose values all fit.
pub open spec fn dep_field_ok(doc: DocValue, name: Seq<char>) -> bool {
    match spec_doc_get(doc, name) {
        None => true,
        Some(DocValue::Object(es)) => dep_map_ok(es@),
        Some(_) => false,
    }
}

/// What such a field yields: empty when absent.
pub open spec fn dep_field_matches(
    doc: DocValue,
    name: Seq<char>,
    out: Seq<(String, VersionedDependencyOrResolved)>,
) -> bool {
    match spec_doc_get(doc, name) {
        None => out.len() == 0,
        Some(DocValue::Object(es)) => dep_map_matches(es@, out),
        Some(_) => false,
    }
}

fn parse_dep_field(doc: &DocValue, name: &str) -> (r: Result<
    Vec<(String, VersionedDependencyOrResolved)>,
    (),
>)
    ensures
        match r {
            Ok(v) => dep_field_ok(*doc, name@) && dep_field_matches(*doc, name@, v@),
            Err(_) => !dep_field_ok(*doc, name@),
        },
{
    match doc.get(name) {
        None => Ok(Vec::new()),
        Some(DocValue::Object(es)) => match parse_dep_map(es) {
            Some(v) => Ok(v),
            None => Err(()),
        },
        Some(_) => Err(()),
    }
}

/// An optional mapping field fits: absent or null (yielding nothing) or
/// a mapping whose values all fit.
pub open spec fn opt_dep_field_ok(doc: DocValue, name: Seq<char>) -> bool {
    match spec_doc_get(doc, name) {
        None => true,
        Some(DocValue::Null) => true,
        Some(DocValue::Object(es)) => dep_map_ok(es@),
        Some(_) => false,
    }
}

/// What such a field yields: `None` when absent or null.
pub open spec fn opt_dep_field_matches(
    doc: DocValue,
    name: Seq<char>,
    out: Option<Vec<(String, VersionedDependencyOrResolved)>>,
) -> bool {
    match spec_doc_get(doc, name) {
        None => out is None,
        Some(DocValue::Null) => out is None,
        Some(DocValue::Object(es)) => out is Some && dep_map_matches(es@, (out->0)@),
        Some(_) => false,
    }
}

fn parse_opt_dep_field(doc: &DocValue, name: &str) -> (r: Result<
    Option<Vec<(String, VersionedDependencyOrResolved)>>,
    (),
>)
    ensures
        match r {
            Ok(v) => opt_dep_field_ok(*doc, name@) && opt_dep_field_matches(*doc, name@, v),
            Err(_) => !opt_dep_field_ok(*doc, name@),
        },
{
    match doc.get(name) {
        None => Ok(None),
        Some(DocValue::Null) => Ok(None),
        Some(DocValue::Object(es)) => match parse_dep_map(es) {
            Some(v) => Ok(Some(v)),
            None => Err(()),
        },
        Some(_) => Err(()),
    }
}

/// Revision 1: the flat mapping under `dependencies`.
pub open spec fn npm_v1_matches(doc: DocValue, r: Result<NpmLock, ParseError>) -> bool {
    if dep_field_ok(doc, "dependencies"@) {
        match r {
            Ok(NpmLock::Version1(l)) => l.lockfile_version == 1 && dep_field_matches(
                doc,
                "dependencies"@,
                l.dependencies@,
            ),
            _ => false,
        }
    } else {
        r == Err::<NpmLock, ParseError>(ParseError::InvalidStructure)
    }
}

/// Revision 2: the optional path-keyed `packages` mapping beside the
/// flat `dependencies` mapping.
pub open spec fn npm_v2_matches(doc: DocValue, r: Result<NpmLock, ParseError>) -> bool {
    if opt_dep_field_ok(doc, "packages"@) && dep_field_ok(doc, "dependencies"@) {
        match r {
            Ok(NpmLock::Version2(l)) => l.lockfile_version == 2 && opt_dep_field_matches(
                doc,
                "packages"@,
                l.packages,
            ) && dep_field_matches(doc, "dependencies"@, l.dependencies@),
            _ => false,
        }
    } else {
        r == Err::<NpmLock, ParseError>(ParseError::InvalidStructure)
    }
}

/// Revision 3: the path-keyed `packages` mapping alone.
pub open spec fn npm_v3_matches(doc: DocValue, r: Result<NpmLock, ParseError>) -> bool {
    if dep_field_ok(doc, "packages"@) {
        match r {
            Ok(NpmLock::Version3(l)) => l.lockfile_version == 3 && dep_field_matches(
                doc,
                "packages"@,
                l.packages@,
            ),
            _ => false,
        }
    } else {
        r == Err::<NpmLock, ParseError>(ParseError::InvalidStructure)
    }
}

/// Ecosystem A: the integer `lockfileVersion` discriminator picks the
/// revision; an unknown integer is refused as unsupported, never as a
/// shape error, and a missing or non-integer field is classified apart.
pub open spec fn npm_lock_matches(doc: DocValue, r: Result<NpmLock, ParseError>) -> bool {
    match spec_doc_get(doc, "lockfileVersion"@) {
        None => r == Err::<NpmLock, ParseError>(ParseError::VersionFieldNotFound),
        Some(DocValue::Number(Some(n), _)) => if n == 1 {
            npm_v1_matches(doc, r)
        } else if n == 2 {
            npm_v2_matches(doc, r)
        } else if n == 3 {
            npm_v3_matches(doc, r)
        } else {
            r == Err::<NpmLock, ParseError>(ParseError::UnsupportedVersion)
        },
        Some(_) => r == Err::<NpmLock, ParseError>(ParseError::InvalidVersionField),
    }
}

/// Classifies and maps an already parsed ecosystem A document.
pub fn parse_npm_lock_doc(doc: &DocValue) -> (r: Result<NpmLock, ParseError>)
    ensures
        npm_lock_matches(*doc, r),
{
    let version = match doc.get("lockfileVersion") {
        None => {
            return Err(ParseError::VersionFieldNotFound);
        },
        Some(DocValue::Number(Some(n), _)) => *n,
        Some(_) => {
            return Err(ParseError::InvalidVersionField);
        },
    };
    if version == 1 {
        match parse_dep_field(doc, "dependencies") {
            Ok(dependencies) => Ok(
                NpmLock::Version1(NpmLockVersion1 { lockfile_version: 1, dependencies }),
            ),
            Err(_) => Err(ParseError::InvalidStructure),
        }
    } else if version == 2 {
        let packages = match parse_opt_dep_field(doc, "packages") {
            Ok(p) => p,
            Err(_) => {
                return Err(ParseError::InvalidStructure);
            },
        };
        match parse_dep_field(doc, "dependencies") {
            Ok(dependencies) => Ok(
                NpmLock::Version2(
                    NpmLockVersion2 { lockfile_version: 2, packages, dependencies },
                ),
            ),
            Err(_) => Err(ParseError::InvalidStructure),
        }
    } else if version == 3 {
        match parse_dep_field(doc, "packages") {
            Ok(packages) => Ok(
                NpmLock::Version3(NpmLockVersion3 { lockfile_version: 3, packages }),
            ),
            Err(_) => Err(ParseError::InvalidStructure),
        }
    } else {
        Err(ParseError::UnsupportedVersion)
    }
}

/// Parses raw ecosystem A lockfile text: the revision named by
/// `lockfileVersion` decides the target shape before any structural
/// mapping happens.
pub fn parse_npm_lock(contents: &str) -> (r: Result<NpmLock, ParseError>)
    ensures
        match json_doc(contents@) {
            None => r == Err::<NpmLock, ParseError>(ParseError::Malformed),
            Some(doc) => npm_lock_matches(doc, r),
        },
{
    match parse_json(contents) {
        None => Err(ParseError::Malformed),
        Some(doc) => parse_npm_lock_doc(&doc),
    }
}

/// The whitespace the metadata marker may hold between its two parts.
pub open spec fn is_marker_space(c: char) -> bool {
    c == ' ' || c == '\t' || c == '\n' || c == '\r' || c == '\u{b}' || c == '\u{c}'
}

fn marker_space(c: char) -> (r: bool)
    ensures
        r == is_marker_space(c),
{
    c == ' ' || c == '\t' || c == '\n' || c == '\r' || c == '\u{b}' || c == '\u{c}'
}

/// A decimal digit.
pub open spec fn is_ascii_digit(c: char) -> bool {
    48 <= c as u32 && c as u32 <= 57
}

fn ascii_digit(c: char) -> (r: bool)
    ensures
        r == is_ascii_digit(c),
{
    let u = c as u32;
    48 <= u && u <= 57
}

/// The metadata marker of ecosystem B's v2 format: `__metadata:` at
/// `i`, a run of whitespace, then `version: ` at `j` followed by a
/// digit and a line break.
pub open spec fn yarn_v2_marker_at(s: Seq<char>, i: int, j: int) -> bool {
    let head = "__metadata:"@;
    let ver = "version: "@;
    &&& contains_at(s, head, i)
    &&& i + head.len() <= j
    &&& forall|k: int| i + head.len() <= k < j ==> is_marker_space(#[trigger] s[k])
    &&& contains_at(s, ver, j)
    &&& j + ver.len() + 1 < s.len()
    &&& is_ascii_digit(s[j + ver.len()])
    &&& (s[j + ver.len() + 1] == '\r' || s[j + ver.len() + 1] == '\n')
}

/// The marker occurs somewhere in the text.
pub open spec fn has_yarn_v2_marker(s: Seq<char>) -> bool {
    exists|i: int, j: int| yarn_v2_marker_at(s, i, j)
}

/// Decides whether the marker starts at position `i`.  The whitespace
/// run after `__metadata:` ends at the first non-whitespace character,
/// which is the only place `version: ` can begin.
fn marker_at_pos(s: &str, i: usize) -> (r: bool)
    requires
        i < s@.len(),
    ensures
        r == exists|j: int| yarn_v2_marker_at(s@, i as int, j),
{
    proof {
        reveal_strlit("__metadata:");
        reveal_strlit("version: ");
    }
    let n = s.unicode_len();
    let head = "__metadata:";
    let head_len = head.unicode_len();
    let ver = "version: ";
    let ver_len = ver.unicode_len();
    if head_len > n - i {
        return false;
    }
    let tail = s.substring_char(i, n);
    if !str_starts_with(tail, head) {
        proof {
            assert forall|j: int| !yarn_v2_marker_at(s@, i as int, j) by {
                if contains_at(s@, "__metadata:"@, i as int) {
                    assert(tail@.subrange(0, head@.len() as int) =~= s@.subrange(
                        i as int,
                        i + head@.len(),
                    ));
                }
            }
        }
        return false;
    }
    proof {
        assert(tail@.subrange(0, head@.len() as int) =~= s@.subrange(i as int, i + head@.len()));
        assert(contains_at(s@, "__metadata:"@, i as int));
    }
    let mut p = i + head_len;
    while p < n && marker_space(s.get_char(p))
        invariant
            n == s@.len(),
            head_len == "__metadata:"@.len(),
            i + head_len <= p <= n,
            forall|k: int| i + head_len <= k < p ==> is_marker_space(#[trigger] s@[k]),
        decreases n - p,
    {
        p += 1;
    }
    // Any candidate j below p sits inside the whitespace run, where no
    // `v` occurs; any candidate above p would need s[p] to be
    // whitespace.  So p is the only candidate.
    let ghost only = p as int;
    proof {
        assert forall|j: int| yarn_v2_marker_at(s@, i as int, j) implies j == only by {
            if j < only {
                assert(is_marker_space(s@[j]));
                assert(s@.subrange(j, j + "version: "@.len())[0] == s@[j]);
                assert(s@[j] == 'v');
            }
            if j > only {
                assert(is_marker_space(s@[only]));
                if only < n {
                } else {
                    assert(j + "version: "@.len() <= n);
                }
            }
        }
    }
    if n - p <= ver_len + 1 {
        proof {
            assert forall|j: int| !yarn_v2_marker_at(s@, i as int, j) by {
                if yarn_v2_marker_at(s@, i as int, j) {
                    assert(j == only);
                }
            }
        }
        return false;
    }
    let vtail = s.substring_char(p, n);
    let ghost ver_at_p = contains_at(s@, "version: "@, p as int);
    proof {
        assert(vtail@.subrange(0, "version: "@.len() as int) =~= s@.subrange(
            p as int,
            p + "version: "@.len(),
        ));
    }
    if !str_starts_with(vtail, ver) {
        proof {
            assert forall|j: int| !yarn_v2_marker_at(s@, i as int, j) by {
                if yarn_v2_marker_at(s@, i as int, j) {
                    assert(j == only);
                }
            }
        }
        return false;
    }
    let digit = s.get_char(p + ver_len);
    let brk = s.get_char(p + ver_len + 1);
    if ascii_digit(digit) && (brk == '\r' || brk == '\n') {
        proof {
            assert(yarn_v2_marker_at(s@, i as int, only));
        }
        true
    } else {
        proof {
            assert forall|j: int| !yarn_v2_marker_at(s@, i as int, j) by {
                if yarn_v2_marker_at(s@, i as int, j) {
                    assert(j == only);
                }
            }
        }
        false
    }
}

/// Scans the text for the v2 metadata marker.
pub fn find_yarn_v2_marker(s: &str) -> (r: bool)
    ensures
        r == has_yarn_v2_marker(s@),
{
    let n = s.unicode_len();
    let mut i: usize = 0;
    while i < n
        invariant
            n == s@.len(),
            i <= n,
            forall|i2: int, j: int| 0 <= i2 < i ==> !yarn_v2_marker_at(s@, i2, j),
        decreases n - i,
    {
        if marker_at_pos(s, i) {
            return true;
        }
        i += 1;
    }
    proof {
        reveal_strlit("__metadata:");
        assert forall|i2: int, j: int| !yarn_v2_marker_at(s@, i2, j) by {
            if yarn_v2_marker_at(s@, i2, j) {
                assert(contains_at(s@, "__metadata:"@, i2));
                assert(0 <= i2 < n);
            }
        }
    }
    false
}

/// An optional text field: absent, null, or text.
pub open spec fn opt_text_field_ok(d: DocValue, name: Seq<char>) -> bool {
    match spec_doc_get(d, name) {
        None => true,
        Some(DocValue::Null) => true,
        Some(DocValue::Text(_)) => true,
        Some(_) => false,
    }
}

/// What an optional text field yields.
pub open spec fn opt_text_field_matches(d: DocValue, name: Seq<char>, out: Option<String>) -> bool {
    match spec_doc_get(d, name) {
        None => out is None,
        Some(DocValue::Null) => out is None,
        Some(p) => out is Some && p == DocValue::Text(out->0),
    }
}

fn parse_opt_text_field(d: &DocValue, name: &str) -> (r: Result<Option<String>, ()>)
    ensures
        match r {
            Ok(out) => opt_text_field_ok(*d, name@) && opt_text_field_matches(*d, name@, out),
            Err(_) => !opt_text_field_ok(*d, name@),
        },
{
    match d.get(name) {
        None => Ok(None),
        Some(DocValue::Null) => Ok(None),
        Some(DocValue::Text(t)) => Ok(Some(t.clone())),
        Some(_) => Err(()),
    }
}

/// An optional name-to-text mapping field: absent, null, or a mapping
/// of text values.
pub open spec fn str_map_field_ok(d: DocValue, name: Seq<char>) -> bool {
    match spec_doc_get(d, name) {
        None => true,
        Some(DocValue::Null) => true,
        Some(DocValue::Object(es)) => text_entries_ok(es@),
        Some(_) => false,
    }
}

/// What such a field yields: `None` when absent or null.
pub open spec fn str_map_field_matches(
    d: DocValue,
    name: Seq<char>,
    out: Option<Vec<(String, String)>>,
) -> bool {
    match spec_doc_get(d, name) {
        None => out is None,
        Some(DocValue::Null) => out is None,
        Some(DocValue::Object(es)) => out is Some && text_entries_matches(es@, (out->0)@),
        Some(_) => false,
    }
}

fn parse_str_map_field(d: &DocValue, name: &str) -> (r: Result<Option<Vec<(String, String)>>, ()>)
    ensures
        match r {
            Ok(out) => str_map_field_ok(*d, name@) && str_map_field_matches(*d, name@, out),
            Err(_) => !str_map_field_ok(*d, name@),
        },
{
    match d.get(name) {
        None => Ok(None),
        Some(DocValue::Null) => Ok(None),
        Some(DocValue::Object(es)) => match parse_text_entries(es) {
            Some(v) => Ok(Some(v)),
            None => Err(()),
        },
        Some(_) => Err(()),
    }
}

/// An ecosystem B entry fits: a text `version`, an optional text
/// `resolved`, and optional text sub-dependencies.
pub open spec fn first_level_ok(d: DocValue) -> bool {
    &&& spec_doc_get(d, "version"@) matches Some(DocValue::Text(_))
    &&& opt_text_field_ok(d, "resolved"@)
    &&& str_map_field_ok(d, "dependencies"@)
}

/// The entry built from such a node.
pub open spec fn first_level_matches(d: DocValue, f: FirstLevelDependency) -> bool {
    &&& spec_doc_get(d, "version"@) == Some(DocValue::Text(f.version))
    &&& opt_text_field_matches(d, "resolved"@, f.resolved)
    &&& str_map_field_matches(d, "dependencies"@, f.dependencies)
}

fn parse_first_level(d: &DocValue) -> (r: Option<FirstLevelDependency>)
    ensures
        match r {
            Some(f) => first_level_ok(*d) && first_level_matches(*d, f),
            None => !first_level_ok(*d),
        },
{
    let version = match d.get("version") {
        Some(DocValue::Text(t)) => t.clone(),
        _ => {
            return None;
        },
    };
    let resolved = match parse_opt_text_field(d, "resolved") {
        Ok(v) => v,
        Err(_) => {
            return None;
        },
    };
    match parse_str_map_field(d, "dependencies") {
        Ok(dependencies) => Some(FirstLevelDependency { version, resolved, dependencies }),
        Err(_) => None,
    }
}

/// Every value of the mapping is a fitting ecosystem B entry.
pub open spec fn yarn_map_ok(es: Seq<(String, DocValue)>) -> bool {
    forall|i: int| 0 <= i < es.len() ==> first_level_ok((#[trigger] es[i]).1)
}

/// The mapping built from such entries, in order, keys kept.
pub open spec fn yarn_map_matches(
    es: Seq<(String, DocValue)>,
    out: Seq<(String, FirstLevelDependency)>,
) -> bool {
    &&& out.len() == es.len()
    &&& forall|i: int|
        0 <= i < es.len() ==> (#[trigger] out[i]).0 == es[i].0 && first_level_matches(
            es[i].1,
            out[i].1,
        )
}

fn parse_yarn_map(es: &Vec<(String, DocValue)>) -> (r: Option<YarnLockV2>)
    ensures
        match r {
            Some(v) => yarn_map_ok(es@) && yarn_map_matches(es@, v@),
            None => !yarn_map_ok(es@),
        },
{
    let mut out: YarnLockV2 = Vec::new();
    let mut i: usize = 0;
    while i < es.len()
        invariant
            i <= es.len(),
            out@.len() == i,
            forall|j: int| 0 <= j < i ==> first_level_ok((#[trigger] es@[j]).1),
            forall|j: int|
                0 <= j < i ==> (#[trigger] out@[j]).0 == es@[j].0 && first_level_matches(
                    es@[j].1,
                    out@[j].1,
                ),
        decreases es.len() - i,
    {
        let entry = &es[i];
        match parse_first_level(&entry.1) {
            Some(f) => {
                out.push((entry.0.clone(), f));
            },
            None => {
                return None;
            },
        }
        i += 1;
    }
    Some(out)
}

/// Ecosystem B's document shape: one flat mapping of fitting entries.
pub open spec fn yarn_lock_matches(doc: DocValue, r: Result<YarnLockV2, ParseError>) -> bool {
    match doc {
        DocValue::Object(es) => if yarn_map_ok(es@) {
            match r {
                Ok(y) => yarn_map_matches(es@, y@),
                Err(_) => false,
            }
        } else {
            r == Err::<YarnLockV2, ParseError>(ParseError::InvalidStructure)
        },
        _ => r == Err::<YarnLockV2, ParseError>(ParseError::InvalidStructure),
    }
}

/// Ecosystem B as a whole: the revision is inferred from content.  The
/// legacy single-version marker is refused as unsupported, the metadata
/// marker selects the v2 shape, and anything else is refused apart.
pub open spec fn yarn_parse_matches(s: Seq<char>, r: Result<YarnLockV2, ParseError>) -> bool {
    if contains_spec(s, "# yarn lockfile v1"@) {
        r == Err::<YarnLockV2, ParseError>(ParseError::YarnClassicUnsupported)
    } else if has_yarn_v2_marker(s) {
        match yaml_doc(s) {
            None => r == Err::<YarnLockV2, ParseError>(ParseError::Malformed),
            Some(doc) => yarn_lock_matches(doc, r),
        }
    } else {
        r == Err::<YarnLockV2, ParseError>(ParseError::YarnUnknownFormat)
    }
}

/// Parses raw ecosystem B lockfile text, inferring the revision from
/// the two content markers.
pub fn parse_yarn_lock(contents: &str) -> (r: Result<YarnLockV2, ParseError>)
    ensures
        yarn_parse_matches(contents@, r),
{
    if str_contains(contents, "# yarn lockfile v1") {
        return Err(ParseError::YarnClassicUnsupported);
    }
    if !find_yarn_v2_marker(contents) {
        return Err(ParseError::YarnUnknownFormat);
    }
    match parse_yaml(contents) {
        None => Err(ParseError::Malformed),
        Some(doc) => match &doc {
            DocValue::Object(es) => match parse_yarn_map(es) {
                Some(y) => Ok(y),
                None => Err(ParseError::InvalidStructure),
            },
            _ => Err(ParseError::InvalidStructure),
        },
    }
}

/// The optional engine mapping of an exact-version record: absent,
/// null, or a mapping of known engines; no list shape here.
pub open spec fn obj_engines_field_ok(d: DocValue) -> bool {
    match spec_doc_get(d, "engines"@) {
        None => true,
        Some(DocValue::Null) => true,
        Some(DocValue::Object(es)) => engine_entries_ok(es@),
        Some(_) => false,
    }
}

/// What that field yields.
pub open spec fn obj_engines_field_matches(d: DocValue, eng: Option<Vec<(Engine, String)>>) -> bool {
    match spec_doc_get(d, "engines"@) {
        None => eng is None,
        Some(DocValue::Null) => eng is None,
        Some(DocValue::Object(es)) => eng is Some && engine_entries_matches(es@, (eng->0)@),
        Some(_) => false,
    }
}

fn parse_obj_engines_field(d: &DocValue) -> (r: Result<Option<Vec<(Engine, String)>>, ()>)
    ensures
        match r {
            Ok(eng) => obj_engines_field_ok(*d) && obj_engines_field_matches(*d, eng),
            Err(_) => !obj_engines_field_ok(*d),
        },
{
    match d.get("engines") {
        None => Ok(None),
        Some(DocValue::Null) => Ok(None),
        Some(DocValue::Object(es)) => match parse_engine_entries(es) {
            Some(m) => Ok(Some(m)),
            None => Err(()),
        },
        Some(_) => Err(()),
    }
}

/// An exact-version record of ecosystem C's newer revision fits: a
/// text `version` and a fitting optional engine mapping.
pub open spec fn lockdep_ok(d: DocValue) -> bool {
    &&& spec_doc_get(d, "version"@) matches Some(DocValue::Text(_))
    &&& obj_engines_field_ok(d)
}

/// The record built from such a node.
pub open spec fn lockdep_matches(d: DocValue, ld: LockDependency) -> bool {
    &&& spec_doc_get(d, "version"@) == Some(DocValue::Text(ld.version))
    &&& obj_engines_field_matches(d, ld.engines)
}

fn parse_lockdep(d: &DocValue) -> (r: Option<LockDependency>)
    ensures
        match r {
            Some(ld) => lockdep_ok(*d) && lockdep_matches(*d, ld),
            None => !lockdep_ok(*d),
        },
{
    let version = match d.get("version") {
        Some(DocValue::Text(t)) => t.clone(),
        _ => {
            return None;
        },
    };
    match parse_obj_engines_field(d) {
        Ok(engines) => Some(LockDependency { version, engines }),
        Err(_) => None,
    }
}

/// Every value of the mapping is a fitting exact-version record.
pub open spec fn lockdep_map_ok(es: Seq<(String, DocValue)>) -> bool {
    forall|i: int| 0 <= i < es.len() ==> lockdep_ok((#[trigger] es[i]).1)
}

/// The mapping built from such entries, in order, keys kept.
pub open spec fn lockdep_map_matches(
    es: Seq<(String, DocValue)>,
    out: Seq<(String, LockDependency)>,
) -> bool {
    &&& out.len() == es.len()
    &&& forall|i: int|
        0 <= i < es.len() ==> (#[trigger] out[i]).0 == es[i].0 && lockdep_matches(
            es[i].1,
            out[i].1,
        )
}

fn parse_lockdep_map(es: &Vec<(String, DocValue)>) -> (r: Option<Vec<(String, LockDependency)>>)
    ensures
        match r {
            Some(v) => lockdep_map_ok(es@) && lockdep_map_matches(es@, v@),
            None => !lockdep_map_ok(es@),
        },
{
    let mut out: Vec<(String, LockDependency)> = Vec::new();
    let mut i: usize = 0;
    while i < es.len()
        invariant
            i <= es.len(),
            out@.len() == i,
            forall|j: int| 0 <= j < i ==> lockdep_ok((#[trigger] es@[j]).1),
            forall|j: int|
                0 <= j < i ==> (#[trigger] out@[j]).0 == es@[j].0 && lockdep_matches(
                    es@[j].1,
                    out@[j].1,
                ),
        decreases es.len() - i,
    {
        let entry = &es[i];
        match parse_lockdep(&entry.1) {
            Some(ld) => {
                out.push((entry.0.clone(), ld));
            },
            None => {
                return None;
            },
        }
        i += 1;
    }
    Some(out)
}

/// An optional mapping field of exact-version records.
pub open spec fn lockdep_field_ok(d: DocValue, name: Seq<char>) -> bool {
    match spec_doc_get(d, name) {
        None => true,
        Some(DocValue::Null) => true,
        Some(DocValue::Object(es)) => lockdep_map_ok(es@),
        Some(_) => false,
    }
}

/// What such a field yields: `None` when absent or null.
pub open spec fn lockdep_field_matches(
    d: DocValue,
    name: Seq<char>,
    out: Option<Vec<(String, LockDependency)>>,
) -> bool {
    match spec_doc_get(d, name) {
        None => out is None,
        Some(DocValue::Null) => out is None,
        Some(DocValue::Object(es)) => out is Some && lockdep_map_matches(es@, (out->0)@),
        Some(_) => false,
    }
}

fn parse_lockdep_field(d: &DocValue, name: &str) -> (r: Result<
    Option<Vec<(String, LockDependency)>>,
    (),
>)
    ensures
        match r {
            Ok(out) => lockdep_field_ok(*d, name@) && lockdep_field_matches(*d, name@, out),
            Err(_) => !lockdep_field_ok(*d, name@),
        },
{
    match d.get(name) {
        None => Ok(None),
        Some(DocValue::Null) => Ok(None),
        Some(DocValue::Object(es)) => match parse_lockdep_map(es) {
            Some(v) => Ok(Some(v)),
            None => Err(()),
        },
        Some(_) => Err(()),
    }
}

/// An importer record of the older revision fits: a mapping node whose
/// three optional fields are text mappings.
pub open spec fn importer_v5_ok(d: DocValue) -> bool {
    &&& d is Object
    &&& str_map_field_ok(d, "dependencies"@)
    &&& str_map_field_ok(d, "optionalDependencies"@)
    &&& str_map_field_ok(d, "devDependencies"@)
}

/// The importer record built from such a node.
pub open spec fn importer_v5_matches(d: DocValue, imp: PnpmImporterV5) -> bool {
    &&& str_map_field_matches(d, "dependencies"@, imp.dependencies)
    &&& str_map_field_matches(d, "optionalDependencies"@, imp.optional_dependencies)
    &&& str_map_field_matches(d, "devDependencies"@, imp.dev_dependencies)
}

fn parse_importer_v5(d: &DocValue) -> (r: Option<PnpmImporterV5>)
    ensures
        match r {
            Some(imp) => importer_v5_ok(*d) && importer_v5_matches(*d, imp),
            None => !importer_v5_ok(*d),
        },
{
    match d {
        DocValue::Object(_) => {},
        _ => {
            return None;
        },
    }
    let dependencies = match parse_str_map_field(d, "dependencies") {
        Ok(v) => v,
        Err(_) => {
            return None;
        },
    };
    let optional_dependencies = match parse_str_map_field(d, "optionalDependencies") {
        Ok(v) => v,
        Err(_) => {
            return None;
        },
    };
    match parse_str_map_field(d, "devDependencies") {
        Ok(dev_dependencies) => Some(
            PnpmImporterV5 { dependencies, optional_dependencies, dev_dependencies },
        ),
        Err(_) => None,
    }
}

/// An importer record of the newer revision fits: a mapping node whose
/// three optional fields are mappings of exact-version records.
pub open spec fn importer_v6_ok(d: DocValue) -> bool {
    &&& d is Object
    &&& lockdep_field_ok(d, "dependencies"@)
    &&& lockdep_field_ok(d, "optionalDependencies"@)
    &&& lockdep_field_ok(d, "devDependencies"@)
}

/// The importer record built from such a node.
pub open spec fn importer_v6_matches(d: DocValue, imp: PnpmImporterV6) -> bool {
    &&& lockdep_field_matches(d, "dependencies"@, imp.dependencies)
    &&& lockdep_field_matches(d, "optionalDependencies"@, imp.optional_dependencies)
    &&& lockdep_field_matches(d, "devDependencies"@, imp.dev_dependencies)
}

fn parse_importer_v6(d: &DocValue) -> (r: Option<PnpmImporterV6>)
    ensures
        match r {
            Some(imp) => importer_v6_ok(*d) && importer_v6_matches(*d, imp),
            None => !importer_v6_ok(*d),
        },
{
    match d {
        DocValue::Object(_) => {},
        _ => {
            return None;
        },
    }
    let dependencies = match parse_lockdep_field(d, "dependencies") {
        Ok(v) => v,
        Err(_) => {
            return None;
        },
    };
    let optional_dependencies = match parse_lockdep_field(d, "optionalDependencies") {
        Ok(v) => v,
        Err(_) => {
            return None;
        },
    };
    match parse_lockdep_field(d, "devDependencies") {
        Ok(dev_dependencies) => Some(
            PnpmImporterV6 { dependencies, optional_dependencies, dev_dependencies },
        ),
        Err(_) => None,
    }
}

/// Every importer of the older revision fits.
pub open spec fn importers_v5_ok(es: Seq<(String, DocValue)>) -> bool {
    forall|i: int| 0 <= i < es.len() ==> importer_v5_ok((#[trigger] es[i]).1)
}

/// The importer mapping built from such entries.
pub open spec fn importers_v5_matches(
    es: Seq<(String, DocValue)>,
    out: Seq<(String, PnpmImporterV5)>,
) -> bool {
    &&& out.len() == es.len()
    &&& forall|i: int|
        0 <= i < es.len() ==> (#[trigger] out[i]).0 == es[i].0 && importer_v5_matches(
            es[i].1,
            out[i].1,
        )
}

fn parse_importers_v5(es: &Vec<(String, DocValue)>) -> (r: Option<Vec<(String, PnpmImporterV5)>>)
    ensures
        match r {
            Some(v) => importers_v5_ok(es@) && importers_v5_matches(es@, v@),
            None => !importers_v5_ok(es@),
        },
{
    let mut out: Vec<(String, PnpmImporterV5)> = Vec::new();
    let mut i: usize = 0;
    while i < es.len()
        invariant
            i <= es.len(),
            out@.len() == i,
            forall|j: int| 0 <= j < i ==> importer_v5_ok((#[trigger] es@[j]).1),
            forall|j: int|
                0 <= j < i ==> (#[trigger] out@[j]).0 == es@[j].0 && importer_v5_matches(
                    es@[j].1,
                    out@[j].1,
                ),
        decreases es.len() - i,
    {
        let entry = &es[i];
        match parse_importer_v5(&entry.1) {
            Some(imp) => {
                out.push((entry.0.clone(), imp));
            },
            None => {
                return None;
            },
        }
        i += 1;
    }
    Some(out)
}

/// Every importer of the newer revision fits.
pub open spec fn importers_v6_ok(es: Seq<(String, DocValue)>) -> bool {
    forall|i: int| 0 <= i < es.len() ==> importer_v6_ok((#[trigger] es[i]).1)
}

/// The importer mapping built from such entries.
pub open spec fn importers_v6_matches(
    es: Seq<(String, DocValue)>,
    out: Seq<(String, PnpmImporterV6)>,
) -> bool {
    &&& out.len() == es.len()
    &&& forall|i: int|
        0 <= i < es.len() ==> (#[trigger] out[i]).0 == es[i].0 && importer_v6_matches(
            es[i].1,
            out[i].1,
        )
}

fn parse_importers_v6(es: &Vec<(String, DocValue)>) -> (r: Option<Vec<(String, PnpmImporterV6)>>)
    ensures
        match r {
            Some(v) => importers_v6_ok(es@) && importers_v6_matches(es@, v@),
            None => !importers_v6_ok(es@),
        },
{
    let mut out: Vec<(String, PnpmImporterV6)> = Vec::new();
    let mut i: usize = 0;
    while i < es.len()
        invariant
            i <= es.len(),
            out@.len() == i,
            forall|j: int| 0 <= j < i ==> importer_v6_ok((#[trigger] es@[j]).1),
            forall|j: int|
                0 <= j < i ==> (#[trigger] out@[j]).0 == es@[j].0 && importer_v6_matches(
                    es@[j].1,
                    out@[j].1,
                ),
        decreases es.len() - i,
    {
        let entry = &es[i];
        match parse_importer_v6(&entry.1) {
            Some(imp) => {
                out.push((entry.0.clone(), imp));
            },
            None => {
                return None;
            },
        }
        i += 1;
    }
    Some(out)
}

/// The older revision's shape: a required `importers` mapping of
/// fitting importer records; the stored revision string is the
/// normalized discriminator.
pub open spec fn pnpm_v5_matches(doc: DocValue, ver: Seq<char>, r: Result<
    PnpmLock,
    ParseError,
>) -> bool {
    match spec_doc_get(doc, "importers"@) {
        Some(DocValue::Object(es)) => if importers_v5_ok(es@) {
            match r {
                Ok(PnpmLock::Version5(l)) => l.lockfile_version@ == ver && importers_v5_matches(
                    es@,
                    l.importers@,
                ),
                _ => false,
            }
        } else {
            r == Err::<PnpmLock, ParseError>(ParseError::InvalidStructure)
        },
        _ => r == Err::<PnpmLock, ParseError>(ParseError::InvalidStructure),
    }
}

/// The newer revision's shape, alike but with exact-version records.
pub open spec fn pnpm_v6_matches(doc: DocValue, ver: Seq<char>, r: Result<
    PnpmLock,
    ParseError,
>) -> bool {
    match spec_doc_get(doc, "importers"@) {
        Some(DocValue::Object(es)) => if importers_v6_ok(es@) {
            match r {
                Ok(PnpmLock::Version6(l)) => l.lockfile_version@ == ver && importers_v6_matches(
                    es@,
                    l.importers@,
                ),
                _ => false,
            }
        } else {
            r == Err::<PnpmLock, ParseError>(ParseError::InvalidStructure)
        },
        _ => r == Err::<PnpmLock, ParseError>(ParseError::InvalidStructure),
    }
}

/// Ecosystem C: after normalization only the two known revision
/// strings are accepted; anything else is refused as unsupported.
pub open spec fn pnpm_version_matches(doc: DocValue, ver: Seq<char>, r: Result<
    PnpmLock,
    ParseError,
>) -> bool {
    if ver == "5.4"@ {
        pnpm_v5_matches(doc, ver, r)
    } else if ver == "6.0"@ {
        pnpm_v6_matches(doc, ver, r)
    } else {
        r == Err::<PnpmLock, ParseError>(ParseError::UnsupportedVersion)
    }
}

/// Ecosystem C as a whole: the `lockfileVersion` discriminator may be
/// a native number or a string; both are normalized to the same
/// revision strings before any structural mapping happens.
pub open spec fn pnpm_lock_matches(doc: DocValue, r: Result<PnpmLock, ParseError>) -> bool {
    match spec_doc_get(doc, "lockfileVersion"@) {
        None => r == Err::<PnpmLock, ParseError>(ParseError::VersionFieldNotFound),
        Some(DocValue::Number(_, rendered)) => pnpm_version_matches(doc, rendered@, r),
        Some(DocValue::Text(t)) => pnpm_version_matches(doc, t@, r),
        Some(_) => r == Err::<PnpmLock, ParseError>(ParseError::InvalidVersionField),
    }
}

/// Maps an already parsed ecosystem C document once its revision
/// string is normalized.
pub fn deserialize_pnpm_lock_content_by_version(doc: &DocValue, version: &str) -> (r: Result<
    PnpmLock,
    ParseError,
>)
    ensures
        pnpm_version_matches(*doc, version@, r),
{
    if str_eq(version, "5.4") {
        match doc.get("importers") {
            Some(DocValue::Object(es)) => match parse_importers_v5(es) {
                Some(importers) => Ok(
                    PnpmLock::Version5(
                        PnpmLockV5 { lockfile_version: String::from_str(version), importers },
                    ),
                ),
                None => Err(ParseError::InvalidStructure),
            },
            _ => Err(ParseError::InvalidStructure),
        }
    } else if str_eq(version, "6.0") {
        match doc.get("importers") {
            Some(DocValue::Object(es)) => match parse_importers_v6(es) {
                Some(importers) => Ok(
                    PnpmLock::Version6(
                        PnpmLockV6 { lockfile_version: String::from_str(version), importers },
                    ),
                ),
                None => Err(ParseError::InvalidStructure),
            },
            _ => Err(ParseError::InvalidStructure),
        }
    } else {
        Err(ParseError::UnsupportedVersion)
    }
}

/// Classifies and maps an already parsed ecosystem C document.
pub fn parse_pnpm_lock_doc(doc: &DocValue) -> (r: Result<PnpmLock, ParseError>)
    ensures
        pnpm_lock_matches(*doc, r),
{
    match doc.get("lockfileVersion") {
        None => Err(ParseError::VersionFieldNotFound),
        Some(DocValue::Number(_, rendered)) => deserialize_pnpm_lock_content_by_version(
            doc,
            rendered.as_str(),
        ),
        Some(DocValue::Text(t)) => deserialize_pnpm_lock_content_by_version(doc, t.as_str()),
        Some(_) => Err(ParseError::InvalidVersionField),
    }
}

/// Parses raw ecosystem C lockfile text.
pub fn parse_pnpm_lock(contents: &str) -> (r: Result<PnpmLock, ParseError>)
    ensures
        match yaml_doc(contents@) {
            None => r == Err::<PnpmLock, ParseError>(ParseError::Malformed),
            Some(doc) => pnpm_lock_matches(doc, r),
        },
{
    match parse_yaml(contents) {
        None => Err(ParseError::Malformed),
        Some(doc) => parse_pnpm_lock_doc(&doc),
    }
}

/// A manifest mapping field: absent or null yields the empty mapping.
pub open spec fn manifest_field_ok(doc: DocValue, name: Seq<char>) -> bool {
    match spec_doc_get(doc, name) {
        None => true,
        Some(DocValue::Null) => true,
        Some(DocValue::Object(es)) => text_entries_ok(es@),
        Some(_) => false,
    }
}

/// What a manifest mapping field yields.
pub open spec fn manifest_field_matches(doc: DocValue, name: Seq<char>, out: Seq<
    (String, String),
>) -> bool {
    match spec_doc_get(doc, name) {
        None => out.len() == 0,
        Some(DocValue::Null) => out.len() == 0,
        Some(DocValue::Object(es)) => text_entries_matches(es@, out),
        Some(_) => false,
    }
}

fn parse_manifest_field(doc: &DocValue, name: &str) -> (r: Result<Vec<(String, String)>, ()>)
    ensures
        match r {
            Ok(v) => manifest_field_ok(*doc, name@) && manifest_field_matches(*doc, name@, v@),
            Err(_) => !manifest_field_ok(*doc, name@),
        },
{
    match doc.get(name) {
        None => Ok(Vec::new()),
        Some(DocValue::Null) => Ok(Vec::new()),
        Some(DocValue::Object(es)) => match parse_text_entries(es) {
            Some(v) => Ok(v),
            None => Err(()),
        },
        Some(_) => Err(()),
    }
}

/// The manifest's shape: a text `name` and three optional mapping
/// fields of declared version strings.
pub open spec fn package_matches(doc: DocValue, r: Result<PackageJson, ParseError>) -> bool {
    if spec_doc_get(doc, "name"@) matches Some(DocValue::Text(_)) && manifest_field_ok(
        doc,
        "dependencies"@,
    ) && manifest_field_ok(doc, "devDependencies"@) && manifest_field_ok(
        doc,
        "optionalDependencies"@,
    ) {
        match r {
            Ok(p) => {
                &&& spec_doc_get(doc, "name"@) == Some(DocValue::Text(p.name))
                &&& manifest_field_matches(doc, "dependencies"@, p.dependencies@)
                &&& manifest_field_matches(doc, "devDependencies"@, p.dev_dependencies@)
                &&& manifest_field_matches(doc, "optionalDependencies"@, p.optional_dependencies@)
            },
            Err(_) => false,
        }
    } else {
        r == Err::<PackageJson, ParseError>(ParseError::InvalidStructure)
    }
}

/// Parses raw manifest text into the three dependency mappings, each
/// in declared order, absent ones empty.
pub fn parse_package(contents: &str) -> (r: Result<PackageJson, ParseError>)
    ensures
        match json_doc(contents@) {
            None => r == Err::<PackageJson, ParseError>(ParseError::Malformed),
            Some(doc) => package_matches(doc, r),
        },
{
    let doc = match parse_json(contents) {
        None => {
            return Err(ParseError::Malformed);
        },
        Some(d) => d,
    };
    let name = match doc.get("name") {
        Some(DocValue::Text(t)) => t.clone(),
        _ => {
            return Err(ParseError::InvalidStructure);
        },
    };
    let dependencies = match parse_manifest_field(&doc, "dependencies") {
        Ok(v) => v,
        Err(_) => {
            return Err(ParseError::InvalidStructure);
        },
    };
    let dev_dependencies = match parse_manifest_field(&doc, "devDependencies") {
        Ok(v) => v,
        Err(_) => {
            return Err(ParseError::InvalidStructure);
        },
    };
    match parse_manifest_field(&doc, "optionalDependencies") {
        Ok(optional_dependencies) => Ok(
            PackageJson { name, dependencies, dev_dependencies, optional_dependencies },
        ),
        Err(_) => Err(ParseError::InvalidStructure),
    }
}

/// The whole detector: the externally determined manager picks the
/// surface, and the ecosystem's own rules pick the revision.
pub open spec fn lock_parse_matches(s: Seq<char>, pm: PackageManager, r: Result<
    PackageManagerLock,
    ParseError,
>) -> bool {
    match pm {
        PackageManager::Npm => match json_doc(s) {
            None => r == Err::<PackageManagerLock, ParseError>(ParseError::Malformed),
            Some(doc) => match r {
                Ok(PackageManagerLock::Npm(nl)) => npm_lock_matches(doc, Ok(nl)),
                Ok(_) => false,
                Err(e) => npm_lock_matches(doc, Err(e)),
            },
        },
        PackageManager::Yarn => match r {
            Ok(PackageManagerLock::Yarn(y)) => yarn_parse_matches(s, Ok(y)),
            Ok(_) => false,
            Err(e) => yarn_parse_matches(s, Err(e)),
        },
        PackageManager::Pnpm => match yaml_doc(s) {
            None => r == Err::<PackageManagerLock, ParseError>(ParseError::Malformed),
            Some(doc) => match r {
                Ok(PackageManagerLock::Pnpm(pl)) => pnpm_lock_matches(doc, Ok(pl)),
                Ok(_) => false,
                Err(e) => pnpm_lock_matches(doc, Err(e)),
            },
        },
    }
}

/// Parses raw lockfile text for the given package manager into the
/// canonical parsed structure, or fails with a classified error.
pub fn parse_lock(contents: &str, package_manager: &PackageManager) -> (r: Result<
    PackageManagerLock,
    ParseError,
>)
    ensures
        lock_parse_matches(contents@, *package_manager, r),
{
    match package_manager {
        PackageManager::Npm => match parse_npm_lock(contents) {
            Ok(l) => Ok(PackageManagerLock::Npm(l)),
            Err(e) => Err(e),
        },
        PackageManager::Yarn => match parse_yarn_lock(contents) {
            Ok(l) => Ok(PackageManagerLock::Yarn(l)),
            Err(e) => Err(e),
        },
        PackageManager::Pnpm => match parse_pnpm_lock(contents) {
            Ok(l) => Ok(PackageManagerLock::Pnpm(l)),
            Err(e) => Err(e),
        },
    }
}

} // verus!
