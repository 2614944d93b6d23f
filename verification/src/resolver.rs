//! The dependency version resolver: normalizes any parsed lockfile into
//! one flat mapping from lookup key to resolved exact version, paired
//! with the key-derivation rule of the ecosystem that produced it.

use vstd::prelude::*;
use vstd::string::StringExecFns;
use crate::text::{contains_spec, lower_of, str_contains, str_eq, str_trim_start_matches,
    strip_prefix_rep, to_lowercase, trim_ends, trim_of};
use crate::types::{
    Engine,
    FirstLevelDependency,
    LockDependencies,
    LockDependency,
    NpmDependencies,
    NpmLock,
    NpmLockEngines,
    ObjectEngines,
    PnpmImporterV5,
    PnpmImporterV6,
    PnpmLock,
    ResolveError,
    VersionedDependencyOrResolved,
    YarnLockV2,
};

verus! {

/// How a declared dependency is turned into a lookup key in the flat
/// resolved mapping.
#[derive(Debug, Clone, Copy, PartialEq, Eq, Structural)]
pub enum KeyRule {
    /// The name itself.
    Name,
    /// `node_modules/` prefixed to the name.
    NodeModulesName,
    /// The name, `@npm:`, and the declared range.
    NameAtNpmRange,
}

/// The key a rule derives from a name and its declared version.
pub open spec fn spec_derive_key(rule: KeyRule, name: Seq<char>, version: Seq<char>) -> Seq<
    char,
> {
    match rule {
        KeyRule::Name => name,
        KeyRule::NodeModulesName => "node_modules/"@ + name,
        KeyRule::NameAtNpmRange => name + "@npm:"@ + version,
    }
}

/// Derives the lookup key for a declared dependency.
pub fn derive_key(rule: KeyRule, name: &str, version: &str) -> (r: String)
    ensures
        r@ == spec_derive_key(rule, name@, version@),
{
    match rule {
        KeyRule::Name => String::from_str(name),
        KeyRule::NodeModulesName => String::from_str("node_modules/").concat(name),
        KeyRule::NameAtNpmRange => String::from_str(name).concat("@npm:").concat(version),
    }
}

/// Two different declared ranges always derive two different keys
/// under the range-embedding rule, so they resolve independently.
pub proof fn lemma_range_key_injective(name: Seq<char>, v1: Seq<char>, v2: Seq<char>)
    requires
        v1 != v2,
    ensures
        spec_derive_key(KeyRule::NameAtNpmRange, name, v1) != spec_derive_key(
            KeyRule::NameAtNpmRange,
            name,
            v2,
        ),
{
    let head = name + "@npm:"@;
    let k1 = spec_derive_key(KeyRule::NameAtNpmRange, name, v1);
    let k2 = spec_derive_key(KeyRule::NameAtNpmRange, name, v2);
    assert(k1 == head + v1);
    assert(k2 == head + v2);
    if k1 == k2 {
        assert(v1.len() == v2.len());
        assert forall|i: int| 0 <= i < v1.len() implies v1[i] == v2[i] by {
            assert((head + v1)[head.len() + i] == v1[i]);
            assert((head + v2)[head.len() + i] == v2[i]);
        }
        assert(v1 =~= v2);
    }
}

/// The flat resolved mapping beside its ecosystem's key rule: the one
/// shape Pin Computation depends on.
#[derive(Debug)]
pub struct DependencyVersionResolver {
    pub locked_dependencies: LockDependencies,
    pub resolve_dependency_key: KeyRule,
}

/// An engine mapping at character level.
pub open spec fn engines_entries_view(m: Seq<(Engine, String)>) -> Seq<(Engine, Seq<char>)> {
    Seq::new(m.len(), |i: int| (m[i].0, m[i].1@))
}

/// An optional engine mapping at character level.
pub open spec fn lockdep_engines_view(e: Option<ObjectEngines>) -> Option<
    Seq<(Engine, Seq<char>)>,
> {
    match e {
        None => None,
        Some(m) => Some(engines_entries_view(m@)),
    }
}

/// A flat resolved mapping at character level: key, version, engines.
pub open spec fn lock_entries_view(m: Seq<(String, LockDependency)>) -> Seq<
    (Seq<char>, Seq<char>, Option<Seq<(Engine, Seq<char>)>>),
> {
    Seq::new(m.len(), |i: int| (m[i].0@, m[i].1.version@, lockdep_engines_view(m[i].1.engines)))
}

/// The lowercase name an engine is recognized by.
pub open spec fn spec_engine_name(e: Engine) -> Seq<char> {
    match e {
        Engine::Node => "node"@,
        Engine::Npm => "npm"@,
        Engine::Yarn => "yarn"@,
    }
}

/// The first engine, in a fixed order, whose name the case-folded
/// constraint string contains.
pub open spec fn spec_engine_match(lower: Seq<char>) -> Option<Engine> {
    if contains_spec(lower, "node"@) {
        Some(Engine::Node)
    } else if contains_spec(lower, "npm"@) {
        Some(Engine::Npm)
    } else if contains_spec(lower, "yarn"@) {
        Some(Engine::Yarn)
    } else {
        None
    }
}

/// What one `"<engine> <range>"` string contributes: the matched
/// engine, and the string with the engine's name stripped off the
/// front and the remainder trimmed.
pub open spec fn spec_array_engine_entry(s: String) -> Option<(Engine, Seq<char>)> {
    match spec_engine_match(lower_of(s@)) {
        Some(e) => Some((e, trim_of(strip_prefix_rep(s@, spec_engine_name(e))))),
        None => None,
    }
}

/// The engine mapping an array form folds into, in encounter order,
/// unrecognized strings dropped.
pub open spec fn spec_array_to_engines(a: Seq<String>) -> Seq<(Engine, Seq<char>)>
    decreases a.len(),
{
    if a.len() == 0 {
        Seq::empty()
    } else {
        let rest = spec_array_to_engines(a.drop_last());
        match spec_array_engine_entry(a.last()) {
            Some(p) => rest.push(p),
            None => rest,
        }
    }
}

/// Folds the array form of engine constraints into the mapping form.
pub fn convert_array_to_object_engines(engines: Vec<String>) -> (r: ObjectEngines)
    ensures
        engines_entries_view(r@) == spec_array_to_engines(engines@),
{
    let mut out: ObjectEngines = Vec::new();
    let mut i: usize = 0;
    proof {
        assert(engines@.take(0) =~= Seq::<String>::empty());
        assert(engines_entries_view(out@) =~= spec_array_to_engines(engines@.take(0)));
    }
    while i < engines.len()
        invariant
            i <= engines.len(),
            engines_entries_view(out@) == spec_array_to_engines(engines@.take(i as int)),
        decreases engines.len() - i,
    {
        let engine_str = &engines[i];
        let lowercase_engine_str = to_lowercase(engine_str.as_str());
        let matched: Option<Engine> = if str_contains(lowercase_engine_str.as_str(), "node") {
            Some(Engine::Node)
        } else if str_contains(lowercase_engine_str.as_str(), "npm") {
            Some(Engine::Npm)
        } else if str_contains(lowercase_engine_str.as_str(), "yarn") {
            Some(Engine::Yarn)
        } else {
            None
        };
        proof {
            assert(engines@.take(i + 1).drop_last() =~= engines@.take(i as int));
            assert(engines@.take(i + 1).last() == engines@[i as int]);
        }
        match matched {
            Some(engine) => {
                let name: &str = match engine {
                    Engine::Node => "node",
                    Engine::Npm => "npm",
                    Engine::Yarn => "yarn",
                };
                let value = trim_ends(str_trim_start_matches(engine_str.as_str(), name));
                out.push((engine, String::from_str(value)));
                proof {
                    assert(engines_entries_view(out@) =~= spec_array_to_engines(
                        engines@.take(i + 1),
                    ));
                }
            },
            None => {
                proof {
                    assert(engines_entries_view(out@) =~= spec_array_to_engines(
                        engines@.take(i + 1),
                    ));
                }
            },
        }
        i += 1;
    }
    proof {
        assert(engines@.take(engines@.len() as int) =~= engines@);
    }
    out
}

/// Copies an engine mapping; the copy carries the same entries.
fn clone_engine_entries(m: &ObjectEngines) -> (r: ObjectEngines)
    ensures
        r@ == m@,
{
    let mut out: ObjectEngines = Vec::new();
    let mut i: usize = 0;
    while i < m.len()
        invariant
            i <= m.len(),
            out@ =~= m@.take(i as int),
        decreases m.len() - i,
    {
        let entry = &m[i];
        out.push((entry.0, entry.1.clone()));
        proof {
            assert(out@ =~= m@.take(i + 1));
        }
        i += 1;
    }
    proof {
        assert(m@.take(m@.len() as int) =~= m@);
    }
    out
}

/// Copies a list of constraint strings; the copy carries the same
/// strings.
fn clone_strings(a: &Vec<String>) -> (r: Vec<String>)
    ensures
        r@ == a@,
{
    let mut out: Vec<String> = Vec::new();
    let mut i: usize = 0;
    while i < a.len()
        invariant
            i <= a.len(),
            out@ =~= a@.take(i as int),
        decreases a.len() - i,
    {
        out.push(a[i].clone());
        proof {
            assert(out@ =~= a@.take(i + 1));
        }
        i += 1;
    }
    proof {
        assert(a@.take(a@.len() as int) =~= a@);
    }
    out
}

/// What either engines form normalizes to: the mapping form as it is,
/// the array form folded.
pub open spec fn spec_convert_npm_engines(e: Option<NpmLockEngines>) -> Option<
    Seq<(Engine, Seq<char>)>,
> {
    match e {
        None => None,
        Some(NpmLockEngines::Object(m)) => Some(engines_entries_view(m@)),
        Some(NpmLockEngines::Array(a)) => Some(spec_array_to_engines(a@)),
    }
}

/// Normalizes either engines form into the mapping form.
pub fn convert_npm_engines_to_object_engines(engines: &Option<NpmLockEngines>) -> (r: Option<
    ObjectEngines,
>)
    ensures
        lockdep_engines_view(r) == spec_convert_npm_engines(*engines),
{
    match engines {
        None => None,
        Some(NpmLockEngines::Object(m)) => {
            let out = clone_engine_entries(m);
            proof {
                assert(engines_entries_view(out@) =~= engines_entries_view(m@));
            }
            Some(out)
        },
        Some(NpmLockEngines::Array(a)) => Some(convert_array_to_object_engines(clone_strings(a))),
    }
}

/// A key that dives below another package's own `node_modules` tree:
/// such nested markers never reach the flat mapping.
pub open spec fn spec_is_nested_path(key: Seq<char>) -> bool {
    contains_spec(key, "/node_modules/"@)
}

fn is_nested_path(key: &str) -> (r: bool)
    ensures
        r == spec_is_nested_path(key@),
{
    str_contains(key, "/node_modules/")
}

/// Looks a key up in a raw ecosystem A mapping; the latest entry wins.
pub open spec fn spec_raw_get(
    es: Seq<(String, VersionedDependencyOrResolved)>,
    key: Seq<char>,
) -> Option<VersionedDependencyOrResolved>
    decreases es.len(),
{
    if es.len() == 0 {
        None
    } else if es.last().0@ == key {
        Some(es.last().1)
    } else {
        spec_raw_get(es.drop_last(), key)
    }
}

fn raw_get<'a>(es: &'a NpmDependencies, key: &str) -> (r: Option<
    &'a VersionedDependencyOrResolved,
>)
    ensures
        match r {
            Some(v) => spec_raw_get(es@, key@) == Some(*v),
            None => spec_raw_get(es@, key@) is None,
        },
{
    let ghost all = es@;
    proof {
        assert(all.take(all.len() as int) =~= all);
    }
    let mut idx = es.len();
    while idx > 0
        invariant
            idx <= es.len(),
            all == es@,
            spec_raw_get(all, key@) == spec_raw_get(all.take(idx as int), key@),
        decreases idx,
    {
        let entry = &es[idx - 1];
        proof {
            assert(all.take(idx as int).last() == all[idx - 1]);
            assert(all.take(idx as int).drop_last() =~= all.take(idx - 1));
        }
        if str_eq(entry.0.as_str(), key) {
            return Some(&entry.1);
        }
        idx -= 1;
    }
    proof {
        assert(all.take(0) =~= Seq::<(String, VersionedDependencyOrResolved)>::empty());
    }
    None
}

/// What one raw entry contributes to the flat mapping: nested markers
/// nothing; an exact-version entry its own version; an alias the
/// version of the entry its pointer reaches in the same raw mapping,
/// when that entry holds one, and nothing on any dead end.
pub open spec fn spec_entry_contribution(
    raw: Seq<(String, VersionedDependencyOrResolved)>,
    key: String,
    v: VersionedDependencyOrResolved,
) -> Option<(Seq<char>, Option<Seq<(Engine, Seq<char>)>>)> {
    if spec_is_nested_path(key@) {
        None
    } else {
        match v {
            VersionedDependencyOrResolved::Versioned(vd) => Some(
                (vd.version@, spec_convert_npm_engines(vd.engines)),
            ),
            VersionedDependencyOrResolved::Resolved(rd) => match rd.resolved {
                None => None,
                Some(ptr) => match spec_raw_get(raw, ptr@) {
                    Some(VersionedDependencyOrResolved::Versioned(vd)) => Some(
                        (vd.version@, spec_convert_npm_engines(vd.engines)),
                    ),
                    _ => None,
                },
            },
        }
    }
}

/// The flat mapping the listed prefix of a raw mapping builds, with
/// pointers resolved against the whole raw mapping.
pub open spec fn spec_npm_flat_prefix(
    raw: Seq<(String, VersionedDependencyOrResolved)>,
    es: Seq<(String, VersionedDependencyOrResolved)>,
) -> Seq<(Seq<char>, Seq<char>, Option<Seq<(Engine, Seq<char>)>>)>
    decreases es.len(),
{
    if es.len() == 0 {
        Seq::empty()
    } else {
        let rest = spec_npm_flat_prefix(raw, es.drop_last());
        match spec_entry_contribution(raw, es.last().0, es.last().1) {
            Some(p) => rest.push((es.last().0@, p.0, p.1)),
            None => rest,
        }
    }
}

/// The flat mapping a raw ecosystem A mapping resolves into.
pub open spec fn spec_npm_flat(raw: Seq<(String, VersionedDependencyOrResolved)>) -> Seq<
    (Seq<char>, Seq<char>, Option<Seq<(Engine, Seq<char>)>>),
> {
    spec_npm_flat_prefix(raw, raw)
}

/// Resolves a raw ecosystem A mapping into the flat mapping: nested
/// markers are dropped, exact versions kept, and aliases followed one
/// hop through the same raw mapping; dead ends are dropped, not
/// errors.
pub fn convert_npm_to_lock_dependencies(npm_dependencies: &NpmDependencies) -> (r:
    LockDependencies)
    ensures
        lock_entries_view(r@) == spec_npm_flat(npm_dependencies@),
{
    let ghost raw = npm_dependencies@;
    let mut out: LockDependencies = Vec::new();
    let mut i: usize = 0;
    proof {
        assert(raw.take(0) =~= Seq::<(String, VersionedDependencyOrResolved)>::empty());
        assert(lock_entries_view(out@) =~= spec_npm_flat_prefix(raw, raw.take(0)));
    }
    while i < npm_dependencies.len()
        invariant
            i <= npm_dependencies.len(),
            raw == npm_dependencies@,
            lock_entries_view(out@) == spec_npm_flat_prefix(raw, raw.take(i as int)),
        decreases npm_dependencies.len() - i,
    {
        let entry = &npm_dependencies[i];
        proof {
            assert(raw.take(i + 1).drop_last() =~= raw.take(i as int));
            assert(raw.take(i + 1).last() == raw[i as int]);
        }
        if !is_nested_path(entry.0.as_str()) {
            match &entry.1 {
                VersionedDependencyOrResolved::Versioned(vd) => {
                    let dep = LockDependency {
                        version: vd.version.clone(),
                        engines: convert_npm_engines_to_object_engines(&vd.engines),
                    };
                    out.push((entry.0.clone(), dep));
                    proof {
                        assert(lock_entries_view(out@) =~= spec_npm_flat_prefix(
                            raw,
                            raw.take(i + 1),
                        ));
                    }
                },
                VersionedDependencyOrResolved::Resolved(rd) => {
                    match &rd.resolved {
                        None => {},
                        Some(ptr) => {
                            match raw_get(npm_dependencies, ptr.as_str()) {
                                Some(VersionedDependencyOrResolved::Versioned(vd)) => {
                                    let dep = LockDependency {
                                        version: vd.version.clone(),
                                        engines: convert_npm_engines_to_object_engines(
                                            &vd.engines,
                                        ),
                                    };
                                    out.push((entry.0.clone(), dep));
                                    proof {
                                        assert(lock_entries_view(out@) =~= spec_npm_flat_prefix(
                                            raw,
                                            raw.take(i + 1),
                                        ));
                                    }
                                },
                                _ => {},
                            }
                        },
                    }
                },
            }
        }
        proof {
            assert(lock_entries_view(out@) =~= spec_npm_flat_prefix(raw, raw.take(i + 1)));
        }
        i += 1;
    }
    proof {
        assert(raw.take(raw.len() as int) =~= raw);
    }
    out
}

/// What the resolver holds for each ecosystem A revision: revision 1
/// the flat mapping under identity keys; revision 2 the path-keyed
/// mapping under path keys when it is present and non-empty, else its
/// flat mapping under identity keys; revision 3 always the path-keyed
/// mapping under path keys.
pub open spec fn spec_npm_resolver(lock: NpmLock) -> (KeyRule, Seq<
    (Seq<char>, Seq<char>, Option<Seq<(Engine, Seq<char>)>>),
>) {
    match lock {
        NpmLock::Version1(l) => (KeyRule::Name, spec_npm_flat(l.dependencies@)),
        NpmLock::Version2(l) => match l.packages {
            Some(p) => if p@.len() > 0 {
                (KeyRule::NodeModulesName, spec_npm_flat(p@))
            } else {
                (KeyRule::Name, spec_npm_flat(l.dependencies@))
            },
            None => (KeyRule::Name, spec_npm_flat(l.dependencies@)),
        },
        NpmLock::Version3(l) => (KeyRule::NodeModulesName, spec_npm_flat(l.packages@)),
    }
}

/// Builds the resolver for an ecosystem A lockfile.
pub fn npm_resolver(npm_lock: &NpmLock) -> (r: DependencyVersionResolver)
    ensures
        ({
            let (rule, flat) = spec_npm_resolver(*npm_lock);
            r.resolve_dependency_key == rule && lock_entries_view(r.locked_dependencies@) == flat
        }),
{
    match npm_lock {
        NpmLock::Version1(lock) => DependencyVersionResolver {
            locked_dependencies: convert_npm_to_lock_dependencies(&lock.dependencies),
            resolve_dependency_key: KeyRule::Name,
        },
        NpmLock::Version2(lock) => match &lock.packages {
            Some(packages) => if packages.len() > 0 {
                DependencyVersionResolver {
                    locked_dependencies: convert_npm_to_lock_dependencies(packages),
                    resolve_dependency_key: KeyRule::NodeModulesName,
                }
            } else {
                DependencyVersionResolver {
                    locked_dependencies: convert_npm_to_lock_dependencies(&lock.dependencies),
                    resolve_dependency_key: KeyRule::Name,
                }
            },
            None => DependencyVersionResolver {
                locked_dependencies: convert_npm_to_lock_dependencies(&lock.dependencies),
                resolve_dependency_key: KeyRule::Name,
            },
        },
        NpmLock::Version3(lock) => DependencyVersionResolver {
            locked_dependencies: convert_npm_to_lock_dependencies(&lock.packages),
            resolve_dependency_key: KeyRule::NodeModulesName,
        },
    }
}

/// The flat mapping an ecosystem B lockfile yields: every entry's
/// version under its own composite key, no engines.
pub open spec fn spec_yarn_flat(y: Seq<(String, FirstLevelDependency)>) -> Seq<
    (Seq<char>, Seq<char>, Option<Seq<(Engine, Seq<char>)>>),
> {
    Seq::new(y.len(), |i: int| (y[i].0@, y[i].1.version@, None))
}

/// Takes every ecosystem B entry's version into the flat mapping.
pub fn transform_yarn_v2_to_lock_dependencies(yarn_lock: &YarnLockV2) -> (r: LockDependencies)
    ensures
        lock_entries_view(r@) == spec_yarn_flat(yarn_lock@),
{
    let mut out: LockDependencies = Vec::new();
    let mut i: usize = 0;
    while i < yarn_lock.len()
        invariant
            i <= yarn_lock.len(),
            out@.len() == i,
            forall|j: int|
                0 <= j < i ==> (#[trigger] out@[j]).0 == yarn_lock@[j].0 && out@[j].1.version
                    == yarn_lock@[j].1.version && out@[j].1.engines is None,
        decreases yarn_lock.len() - i,
    {
        let entry = &yarn_lock[i];
        out.push(
            (entry.0.clone(), LockDependency { version: entry.1.version.clone(), engines: None }),
        );
        i += 1;
    }
    proof {
        assert(lock_entries_view(out@) =~= spec_yarn_flat(yarn_lock@));
    }
    out
}

/// Builds the resolver for an ecosystem B lockfile: the declared range
/// is part of every lookup key.
pub fn yarn_resolver(yarn_lock_file: &YarnLockV2) -> (r: DependencyVersionResolver)
    ensures
        r.resolve_dependency_key == KeyRule::NameAtNpmRange,
        lock_entries_view(r.locked_dependencies@) == spec_yarn_flat(yarn_lock_file@),
{
    DependencyVersionResolver {
        locked_dependencies: transform_yarn_v2_to_lock_dependencies(yarn_lock_file),
        resolve_dependency_key: KeyRule::NameAtNpmRange,
    }
}

/// The flat entries an optional bare-version mapping yields.
pub open spec fn spec_pnpm_v5_deps(d: Option<Vec<(String, String)>>) -> Seq<
    (Seq<char>, Seq<char>, Option<Seq<(Engine, Seq<char>)>>),
> {
    match d {
        None => Seq::empty(),
        Some(m) => Seq::new(m@.len(), |i: int| (m@[i].0@, m@[i].1@, None)),
    }
}

/// Takes an importer's optional bare-version mapping into flat form.
pub fn transform_pnpm_v5_to_lock_dependencies(dependencies: &Option<Vec<(String, String)>>) -> (r:
    LockDependencies)
    ensures
        lock_entries_view(r@) == spec_pnpm_v5_deps(*dependencies),
{
    let mut out: LockDependencies = Vec::new();
    match dependencies {
        None => {},
        Some(deps) => {
            let mut i: usize = 0;
            while i < deps.len()
                invariant
                    i <= deps.len(),
                    out@.len() == i,
                    forall|j: int|
                        0 <= j < i ==> (#[trigger] out@[j]).0 == deps@[j].0 && out@[j].1.version
                            == deps@[j].1 && out@[j].1.engines is None,
                decreases deps.len() - i,
            {
                let entry = &deps[i];
                out.push(
                    (
                        entry.0.clone(),
                        LockDependency { version: entry.1.clone(), engines: None },
                    ),
                );
                i += 1;
            }
        },
    }
    proof {
        assert(lock_entries_view(out@) =~= spec_pnpm_v5_deps(*dependencies));
    }
    out
}

/// The flat entries an optional exact-version-record mapping yields.
pub open spec fn spec_pnpm_v6_deps(d: Option<Vec<(String, LockDependency)>>) -> Seq<
    (Seq<char>, Seq<char>, Option<Seq<(Engine, Seq<char>)>>),
> {
    match d {
        None => Seq::empty(),
        Some(m) => lock_entries_view(m@),
    }
}

/// Takes an importer's optional exact-version-record mapping into flat
/// form.
pub fn transform_pnpm_v6_to_lock_dependencies(
    dependencies: &Option<Vec<(String, LockDependency)>>,
) -> (r: LockDependencies)
    ensures
        lock_entries_view(r@) == spec_pnpm_v6_deps(*dependencies),
{
    let mut out: LockDependencies = Vec::new();
    match dependencies {
        None => {},
        Some(deps) => {
            let mut i: usize = 0;
            while i < deps.len()
                invariant
                    i <= deps.len(),
                    out@.len() == i,
                    forall|j: int|
                        0 <= j < i ==> (#[trigger] out@[j]).0 == deps@[j].0 && out@[j].1.version
                            == deps@[j].1.version && lockdep_engines_view(out@[j].1.engines)
                            == lockdep_engines_view(deps@[j].1.engines),
                decreases deps.len() - i,
            {
                let entry = &deps[i];
                let engines = match &entry.1.engines {
                    None => None,
                    Some(m) => {
                        let c = clone_engine_entries(m);
                        proof {
                            assert(engines_entries_view(c@) =~= engines_entries_view(m@));
                        }
                        Some(c)
                    },
                };
                out.push(
                    (
                        entry.0.clone(),
                        LockDependency { version: entry.1.version.clone(), engines },
                    ),
                );
                i += 1;
            }
        },
    }
    proof {
        assert(lock_entries_view(out@) =~= spec_pnpm_v6_deps(*dependencies));
    }
    out
}

/// Looks an importer path up in the older revision's importer mapping;
/// the latest entry wins.
pub open spec fn spec_importers_v5_get(es: Seq<(String, PnpmImporterV5)>, key: Seq<char>) -> Option<
    PnpmImporterV5,
>
    decreases es.len(),
{
    if es.len() == 0 {
        None
    } else if es.last().0@ == key {
        Some(es.last().1)
    } else {
        spec_importers_v5_get(es.drop_last(), key)
    }
}

fn importers_v5_get<'a>(es: &'a Vec<(String, PnpmImporterV5)>, key: &str) -> (r: Option<
    &'a PnpmImporterV5,
>)
    ensures
        match r {
            Some(v) => spec_importers_v5_get(es@, key@) == Some(*v),
            None => spec_importers_v5_get(es@, key@) is None,
        },
{
    let ghost all = es@;
    proof {
        assert(all.take(all.len() as int) =~= all);
    }
    let mut idx = es.len();
    while idx > 0
        invariant
            idx <= es.len(),
            all == es@,
            spec_importers_v5_get(all, key@) == spec_importers_v5_get(all.take(idx as int), key@),
        decreases idx,
    {
        let entry = &es[idx - 1];
        proof {
            assert(all.take(idx as int).last() == all[idx - 1]);
            assert(all.take(idx as int).drop_last() =~= all.take(idx - 1));
        }
        if str_eq(entry.0.as_str(), key) {
            return Some(&entry.1);
        }
        idx -= 1;
    }
    proof {
        assert(all.take(0) =~= Seq::<(String, PnpmImporterV5)>::empty());
    }
    None
}

/// Looks an importer path up in the newer revision's importer mapping;
/// the latest entry wins.
pub open spec fn spec_importers_v6_get(es: Seq<(String, PnpmImporterV6)>, key: Seq<char>) -> Option<
    PnpmImporterV6,
>
    decreases es.len(),
{
    if es.len() == 0 {
        None
    } else if es.last().0@ == key {
        Some(es.last().1)
    } else {
        spec_importers_v6_get(es.drop_last(), key)
    }
}

fn importers_v6_get<'a>(es: &'a Vec<(String, PnpmImporterV6)>, key: &str) -> (r: Option<
    &'a PnpmImporterV6,
>)
    ensures
        match r {
            Some(v) => spec_importers_v6_get(es@, key@) == Some(*v),
            None => spec_importers_v6_get(es@, key@) is None,
        },
{
    let ghost all = es@;
    proof {
        assert(all.take(all.len() as int) =~= all);
    }
    let mut idx = es.len();
    while idx > 0
        invariant
            idx <= es.len(),
            all == es@,
            spec_importers_v6_get(all, key@) == spec_importers_v6_get(all.take(idx as int), key@),
        decreases idx,
    {
        let entry = &es[idx - 1];
        proof {
            assert(all.take(idx as int).last() == all[idx - 1]);
            assert(all.take(idx as int).drop_last() =~= all.take(idx - 1));
        }
        if str_eq(entry.0.as_str(), key) {
            return Some(&entry.1);
        }
        idx -= 1;
    }
    proof {
        assert(all.take(0) =~= Seq::<(String, PnpmImporterV6)>::empty());
    }
    None
}

/// What the resolver holds for an ecosystem C lockfile: the root
/// importer's three mappings concatenated in the fixed order runtime,
/// dev, optional, under identity keys; no root importer, no resolver.
pub open spec fn spec_pnpm_resolver(lock: PnpmLock) -> Result<
    Seq<(Seq<char>, Seq<char>, Option<Seq<(Engine, Seq<char>)>>)>,
    ResolveError,
> {
    match lock {
        PnpmLock::Version5(l) => match spec_importers_v5_get(l.importers@, "."@) {
            None => Err(ResolveError::MissingRootImporter),
            Some(imp) => Ok(
                spec_pnpm_v5_deps(imp.dependencies) + spec_pnpm_v5_deps(imp.dev_dependencies)
                    + spec_pnpm_v5_deps(imp.optional_dependencies),
            ),
        },
        PnpmLock::Version6(l) => match spec_importers_v6_get(l.importers@, "."@) {
            None => Err(ResolveError::MissingRootImporter),
            Some(imp) => Ok(
                spec_pnpm_v6_deps(imp.dependencies) + spec_pnpm_v6_deps(imp.dev_dependencies)
                    + spec_pnpm_v6_deps(imp.optional_dependencies),
            ),
        },
    }
}

/// Builds the resolver for an ecosystem C lockfile.  The root importer
/// `"."` must exist: without it no resolution query could be
/// answered, so its absence is a hard failure, never an empty result.
pub fn pnpm_resolver(pnpm_lock: &PnpmLock) -> (r: Result<DependencyVersionResolver, ResolveError>)
    ensures
        match spec_pnpm_resolver(*pnpm_lock) {
            Err(e) => r == Err::<DependencyVersionResolver, ResolveError>(e),
            Ok(flat) => match r {
                Ok(res) => res.resolve_dependency_key == KeyRule::Name && lock_entries_view(
                    res.locked_dependencies@,
                ) == flat,
                Err(_) => false,
            },
        },
{
    let locked_dependencies: LockDependencies = match pnpm_lock {
        PnpmLock::Version6(lock) => {
            let importer = match importers_v6_get(&lock.importers, ".") {
                Some(imp) => imp,
                None => {
                    return Err(ResolveError::MissingRootImporter);
                },
            };
            let mut dependencies = transform_pnpm_v6_to_lock_dependencies(&importer.dependencies);
            let mut dev_dependencies = transform_pnpm_v6_to_lock_dependencies(
                &importer.dev_dependencies,
            );
            let mut optional_dependencies = transform_pnpm_v6_to_lock_dependencies(
                &importer.optional_dependencies,
            );
            let ghost d0 = dependencies@;
            let ghost d1 = dev_dependencies@;
            let ghost d2 = optional_dependencies@;
            dependencies.append(&mut dev_dependencies);
            dependencies.append(&mut optional_dependencies);
            proof {
                assert(lock_entries_view(d0 + d1 + d2) =~= lock_entries_view(d0)
                    + lock_entries_view(d1) + lock_entries_view(d2));
            }
            dependencies
        },
        PnpmLock::Version5(lock) => {
            let importer = match importers_v5_get(&lock.importers, ".") {
                Some(imp) => imp,
                None => {
                    return Err(ResolveError::MissingRootImporter);
                },
            };
            let mut dependencies = transform_pnpm_v5_to_lock_dependencies(&importer.dependencies);
            let mut dev_dependencies = transform_pnpm_v5_to_lock_dependencies(
                &importer.dev_dependencies,
            );
            let mut optional_dependencies = transform_pnpm_v5_to_lock_dependencies(
                &importer.optional_dependencies,
            );
            let ghost d0 = dependencies@;
            let ghost d1 = dev_dependencies@;
            let ghost d2 = optional_dependencies@;
            dependencies.append(&mut dev_dependencies);
            dependencies.append(&mut optional_dependencies);
            proof {
                assert(lock_entries_view(d0 + d1 + d2) =~= lock_entries_view(d0)
                    + lock_entries_view(d1) + lock_entries_view(d2));
            }
            dependencies
        },
    };
    Ok(
        DependencyVersionResolver {
            locked_dependencies,
            resolve_dependency_key: KeyRule::Name,
        },
    )
}

/// Builds the resolver for any parsed lockfile.
pub fn resolver_for_lock(lock: &crate::types::PackageManagerLock) -> (r: Result<
    DependencyVersionResolver,
    ResolveError,
>)
    ensures
        match *lock {
            crate::types::PackageManagerLock::Npm(nl) => match r {
                Ok(res) => ({
                    let (rule, flat) = spec_npm_resolver(nl);
                    res.resolve_dependency_key == rule && lock_entries_view(
                        res.locked_dependencies@,
                    ) == flat
                }),
                Err(_) => false,
            },
            crate::types::PackageManagerLock::Yarn(y) => match r {
                Ok(res) => res.resolve_dependency_key == KeyRule::NameAtNpmRange
                    && lock_entries_view(res.locked_dependencies@) == spec_yarn_flat(y@),
                Err(_) => false,
            },
            crate::types::PackageManagerLock::Pnpm(pl) => match spec_pnpm_resolver(pl) {
                Err(e) => r == Err::<DependencyVersionResolver, ResolveError>(e),
                Ok(flat) => match r {
                    Ok(res) => res.resolve_dependency_key == KeyRule::Name && lock_entries_view(
                        res.locked_dependencies@,
                    ) == flat,
                    Err(_) => false,
                },
            },
        },
{
    match lock {
        crate::types::PackageManagerLock::Npm(nl) => Ok(npm_resolver(nl)),
        crate::types::PackageManagerLock::Yarn(y) => Ok(yarn_resolver(y)),
        crate::types::PackageManagerLock::Pnpm(pl) => pnpm_resolver(pl),
    }
}

} // verus!
