//! Pin computation: compares each declared dependency range against the
//! resolver's flat mapping and decides, dependency by dependency and in
//! manifest order, whether a pin proposal is warranted.

use vstd::prelude::*;
use vstd::string::StringExecFns;
use crate::resolver::{spec_derive_key, derive_key, DependencyVersionResolver, KeyRule};
use crate::text::{starts_with_spec, str_eq, str_starts_with};
use crate::types::{LockDependencies, LockDependency, PackageJson};

verus! {

/// One proposal: rewrite `dependency`'s declared `package_version` to
/// the lockfile's `locked_version`.
#[derive(Debug, Clone, PartialEq, Eq)]
pub struct VersionToPin {
    pub dependency: String,
    pub package_version: String,
    pub locked_version: String,
}

/// Whether a declared version string already is an exact version.
pub uninterp spec fn is_exact_version(s: Seq<char>) -> bool;

/// Relies on `semver::Version::parse`: it accepts exactly the full
/// `major.minor.patch` exact versions and depends on the characters
/// alone.
#[verifier::external_body]
pub(crate) fn parses_as_exact_version(s: &str) -> (r: bool)
    ensures
        r == is_exact_version(s@),
{
    semver::Version::parse(s).is_ok()
}

/// Looks a key up in the flat resolved mapping; the latest entry wins.
pub open spec fn spec_locked_get(es: Seq<(String, LockDependency)>, key: Seq<char>) -> Option<
    LockDependency,
>
    decreases es.len(),
{
    if es.len() == 0 {
        None
    } else if es.last().0@ == key {
        Some(es.last().1)
    } else {
        spec_locked_get(es.drop_last(), key)
    }
}

fn locked_get<'a>(es: &'a LockDependencies, key: &str) -> (r: Option<&'a LockDependency>)
    ensures
        match r {
            Some(v) => spec_locked_get(es@, key@) == Some(*v),
            None => spec_locked_get(es@, key@) is None,
        },
{
    let ghost all = es@;
    proof {
        assert(all.take(all.len() as int) =~= all);
    }
    let mut idx = es.len();
    while idx > 0
        invariant
            idx <= es.len(),
            all == es@,
            spec_locked_get(all, key@) == spec_locked_get(all.take(idx as int), key@),
        decreases idx,
    {
        let entry = &es[idx - 1];
        proof {
            assert(all.take(idx as int).last() == all[idx - 1]);
            assert(all.take(idx as int).drop_last() =~= all.take(idx - 1));
        }
        if str_eq(entry.0.as_str(), key) {
            return Some(&entry.1);
        }
        idx -= 1;
    }
    proof {
        assert(all.take(0) =~= Seq::<(String, LockDependency)>::empty());
    }
    None
}

/// The decision for one declared dependency: nothing for a local-path
/// declaration; nothing when its key is absent from the mapping;
/// nothing when the declaration is already exact or already equals the
/// locked version; a proposal exactly when a range differs from the
/// locked version.
pub open spec fn spec_pin_decision(
    locked: Seq<(String, LockDependency)>,
    rule: KeyRule,
    name: Seq<char>,
    declared: Seq<char>,
) -> Option<(Seq<char>, Seq<char>, Seq<char>)> {
    if starts_with_spec(declared, "file"@) {
        None
    } else {
        match spec_locked_get(locked, spec_derive_key(rule, name, declared)) {
            None => None,
            Some(ld) => if !is_exact_version(declared) && ld.version@ != declared {
                Some((name, declared, ld.version@))
            } else {
                None
            },
        }
    }
}

/// Decides one dependency, given whether its declared version already
/// parses as exact.
pub fn decide_pin(
    locked: &LockDependencies,
    rule: KeyRule,
    name: &str,
    declared: &str,
    declared_exact: bool,
) -> (r: Option<VersionToPin>)
    requires
        declared_exact == is_exact_version(declared@),
    ensures
        match r {
            Some(p) => spec_pin_decision(locked@, rule, name@, declared@) == Some(
                (p.dependency@, p.package_version@, p.locked_version@),
            ),
            None => spec_pin_decision(locked@, rule, name@, declared@) is None,
        },
{
    if str_starts_with(declared, "file") {
        return None;
    }
    let key = derive_key(rule, name, declared);
    match locked_get(locked, key.as_str()) {
        None => None,
        Some(ld) => {
            if !declared_exact && !str_eq(ld.version.as_str(), declared) {
                Some(
                    VersionToPin {
                        dependency: String::from_str(name),
                        package_version: String::from_str(declared),
                        locked_version: ld.version.clone(),
                    },
                )
            } else {
                None
            }
        },
    }
}

/// The proposals one declared mapping yields, in declared order.
pub open spec fn spec_pins_of_list(
    locked: Seq<(String, LockDependency)>,
    rule: KeyRule,
    deps: Seq<(String, String)>,
) -> Seq<(Seq<char>, Seq<char>, Seq<char>)>
    decreases deps.len(),
{
    if deps.len() == 0 {
        Seq::empty()
    } else {
        let rest = spec_pins_of_list(locked, rule, deps.drop_last());
        match spec_pin_decision(locked, rule, deps.last().0@, deps.last().1@) {
            Some(p) => rest.push(p),
            None => rest,
        }
    }
}

/// The proposals a whole manifest yields: its three mappings in the
/// fixed order runtime, dev, optional, each in declared order.
pub open spec fn spec_pins(
    locked: Seq<(String, LockDependency)>,
    rule: KeyRule,
    pkg: PackageJson,
) -> Seq<(Seq<char>, Seq<char>, Seq<char>)> {
    spec_pins_of_list(locked, rule, pkg.dependencies@) + spec_pins_of_list(
        locked,
        rule,
        pkg.dev_dependencies@,
    ) + spec_pins_of_list(locked, rule, pkg.optional_dependencies@)
}

/// A proposal list at character level.
pub open spec fn pins_view(v: Seq<VersionToPin>) -> Seq<(Seq<char>, Seq<char>, Seq<char>)> {
    Seq::new(v.len(), |i: int| (v[i].dependency@, v[i].package_version@, v[i].locked_version@))
}

fn pins_for_list(
    locked: &LockDependencies,
    rule: KeyRule,
    deps: &Vec<(String, String)>,
    out: &mut Vec<VersionToPin>,
)
    ensures
        pins_view(final(out)@) == pins_view(old(out)@) + spec_pins_of_list(locked@, rule, deps@),
{
    let mut i: usize = 0;
    proof {
        assert(deps@.take(0) =~= Seq::<(String, String)>::empty());
        assert(pins_view(out@) =~= pins_view(out@) + spec_pins_of_list(
            locked@,
            rule,
            deps@.take(0),
        ));
    }
    while i < deps.len()
        invariant
            i <= deps.len(),
            pins_view(out@) == pins_view(old(out)@) + spec_pins_of_list(
                locked@,
                rule,
                deps@.take(i as int),
            ),
        decreases deps.len() - i,
    {
        let entry = &deps[i];
        proof {
            assert(deps@.take(i + 1).drop_last() =~= deps@.take(i as int));
            assert(deps@.take(i + 1).last() == deps@[i as int]);
        }
        let declared_exact = parses_as_exact_version(entry.1.as_str());
        match decide_pin(locked, rule, entry.0.as_str(), entry.1.as_str(), declared_exact) {
            Some(p) => {
                let ghost prev = out@;
                out.push(p);
                proof {
                    assert(out@ == prev.push(out@.last()));
                    assert(pins_view(out@) =~= pins_view(prev).push(
                        (
                            out@.last().dependency@,
                            out@.last().package_version@,
                            out@.last().locked_version@,
                        ),
                    ));
                    assert(pins_view(out@) =~= pins_view(old(out)@) + spec_pins_of_list(
                        locked@,
                        rule,
                        deps@.take(i + 1),
                    ));
                }
            },
            None => {
                proof {
                    assert(pins_view(out@) =~= pins_view(old(out)@) + spec_pins_of_list(
                        locked@,
                        rule,
                        deps@.take(i + 1),
                    ));
                }
            },
        }
        i += 1;
    }
    proof {
        assert(deps@.take(deps@.len() as int) =~= deps@);
    }
}

/// Walks the manifest's three mappings in the fixed order runtime,
/// dev, optional and, within each, in declared order, and produces the
/// ordered proposal list: one entry per dependency whose declared
/// range should be rewritten to the locked exact version.
pub fn compute_versions_to_pin(
    package_json: &PackageJson,
    resolver: &DependencyVersionResolver,
) -> (r: Vec<VersionToPin>)
    ensures
        pins_view(r@) == spec_pins(
            resolver.locked_dependencies@,
            resolver.resolve_dependency_key,
            *package_json,
        ),
{
    let mut out: Vec<VersionToPin> = Vec::new();
    pins_for_list(
        &resolver.locked_dependencies,
        resolver.resolve_dependency_key,
        &package_json.dependencies,
        &mut out,
    );
    pins_for_list(
        &resolver.locked_dependencies,
        resolver.resolve_dependency_key,
        &package_json.dev_dependencies,
        &mut out,
    );
    pins_for_list(
        &resolver.locked_dependencies,
        resolver.resolve_dependency_key,
        &package_json.optional_dependencies,
        &mut out,
    );
    proof {
        assert(pins_view(out@) =~= spec_pins(
            resolver.locked_dependencies@,
            resolver.resolve_dependency_key,
            *package_json,
        ));
    }
    out
}

/// A dependency declared with the local-path marker never yields a
/// proposal, whatever the resolver holds.
pub proof fn lemma_file_dependency_never_proposed(
    locked: Seq<(String, LockDependency)>,
    rule: KeyRule,
    name: Seq<char>,
    declared: Seq<char>,
)
    requires
        starts_with_spec(declared, "file"@),
    ensures
        spec_pin_decision(locked, rule, name, declared) is None,
{
}

/// No entry of a mapping's proposal list carries a local-path
/// declaration, whatever the resolver holds.
pub proof fn lemma_no_file_dependency_in_list(
    locked: Seq<(String, LockDependency)>,
    rule: KeyRule,
    deps: Seq<(String, String)>,
)
    ensures
        forall|i: int|
            0 <= i < spec_pins_of_list(locked, rule, deps).len() ==> !starts_with_spec(
                (#[trigger] spec_pins_of_list(locked, rule, deps)[i]).1,
                "file"@,
            ),
    decreases deps.len(),
{
    if deps.len() > 0 {
        lemma_no_file_dependency_in_list(locked, rule, deps.drop_last());
        let rest = spec_pins_of_list(locked, rule, deps.drop_last());
        let whole = spec_pins_of_list(locked, rule, deps);
        match spec_pin_decision(locked, rule, deps.last().0@, deps.last().1@) {
            Some(p) => {
                assert(whole == rest.push(p));
                assert(!starts_with_spec(p.1, "file"@));
                assert forall|i: int| 0 <= i < whole.len() implies !starts_with_spec(
                    whole[i].1,
                    "file"@,
                ) by {
                    if i < rest.len() {
                        assert(whole[i] == rest[i]);
                    } else {
                        assert(whole[i] == p);
                    }
                }
            },
            None => {
                assert(whole == rest);
            },
        }
    }
}

/// Nowhere in a manifest's whole proposal list stands a local-path
/// declaration.
pub proof fn lemma_no_file_dependency_proposed(
    locked: Seq<(String, LockDependency)>,
    rule: KeyRule,
    pkg: PackageJson,
)
    ensures
        forall|i: int|
            0 <= i < spec_pins(locked, rule, pkg).len() ==> !starts_with_spec(
                (#[trigger] spec_pins(locked, rule, pkg)[i]).1,
                "file"@,
            ),
{
    lemma_no_file_dependency_in_list(locked, rule, pkg.dependencies@);
    lemma_no_file_dependency_in_list(locked, rule, pkg.dev_dependencies@);
    lemma_no_file_dependency_in_list(locked, rule, pkg.optional_dependencies@);
}

/// Idempotence: once a proposal's exact locked version replaces the
/// declared range, re-deciding that dependency against the same
/// resolver proposes nothing.
pub proof fn lemma_pin_idempotent(
    locked: Seq<(String, LockDependency)>,
    rule: KeyRule,
    name: Seq<char>,
    declared: Seq<char>,
    p: (Seq<char>, Seq<char>, Seq<char>),
)
    requires
        spec_pin_decision(locked, rule, name, declared) == Some(p),
        is_exact_version(p.2),
    ensures
        spec_pin_decision(locked, rule, name, p.2) is None,
{
}

} // verus!
