use pin_dependencies::parser::{parse_npm_lock, parse_pnpm_lock, parse_yarn_lock};
use pin_dependencies::resolver::{
    convert_array_to_object_engines, convert_npm_engines_to_object_engines, derive_key,
    npm_resolver, pnpm_resolver, transform_yarn_v2_to_lock_dependencies, yarn_resolver, KeyRule,
};
use pin_dependencies::types::{Engine, NpmLockEngines, ResolveError};

#[test]
fn alias_one_hop_resolves() {
    let lock = parse_npm_lock(
        r#"{"lockfileVersion": 2,
            "packages": {
                "node_modules/foo": {"resolved": "node_modules/bar", "link": true},
                "node_modules/bar": {"version": "1.2.3"}}}"#,
    )
    .unwrap();
    let resolver = npm_resolver(&lock);
    assert_eq!(resolver.resolve_dependency_key, KeyRule::NodeModulesName);
    let foo = resolver
        .locked_dependencies
        .iter()
        .find(|(k, _)| k == "node_modules/foo")
        .expect("the alias should resolve");
    assert_eq!(foo.1.version, "1.2.3");
    let key = derive_key(KeyRule::NodeModulesName, "foo", "^1.0.0");
    assert_eq!(key, "node_modules/foo");
}

#[test]
fn alias_to_alias_is_unresolved_not_an_error() {
    let lock = parse_npm_lock(
        r#"{"lockfileVersion": 2,
            "packages": {
                "node_modules/foo": {"resolved": "node_modules/bar", "link": true},
                "node_modules/bar": {"resolved": "node_modules/baz", "link": true}}}"#,
    )
    .unwrap();
    let resolver = npm_resolver(&lock);
    assert!(resolver
        .locked_dependencies
        .iter()
        .all(|(k, _)| k != "node_modules/foo"));
    assert!(resolver.locked_dependencies.is_empty());
}

#[test]
fn alias_to_missing_target_is_dropped() {
    let lock = parse_npm_lock(
        r#"{"lockfileVersion": 3,
            "packages": {
                "node_modules/foo": {"resolved": "node_modules/gone", "link": true}}}"#,
    )
    .unwrap();
    let resolver = npm_resolver(&lock);
    assert!(resolver.locked_dependencies.is_empty());
}

#[test]
fn alias_without_pointer_is_dropped() {
    let lock = parse_npm_lock(
        r#"{"lockfileVersion": 3, "packages": {"node_modules/foo": {"link": true}}}"#,
    )
    .unwrap();
    let resolver = npm_resolver(&lock);
    assert!(resolver.locked_dependencies.is_empty());
}

#[test]
fn nested_tree_paths_never_reach_the_flat_mapping() {
    let lock = parse_npm_lock(
        r#"{"lockfileVersion": 3,
            "packages": {
                "node_modules/a": {"version": "1.0.0"},
                "node_modules/a/node_modules/b": {"version": "9.9.9"}}}"#,
    )
    .unwrap();
    let resolver = npm_resolver(&lock);
    assert_eq!(resolver.locked_dependencies.len(), 1);
    assert_eq!(resolver.locked_dependencies[0].0, "node_modules/a");
}

#[test]
fn npm_v1_uses_identity_keys() {
    let lock = parse_npm_lock(
        r#"{"lockfileVersion": 1, "dependencies": {"a": {"version": "1.0.0"}}}"#,
    )
    .unwrap();
    let resolver = npm_resolver(&lock);
    assert_eq!(resolver.resolve_dependency_key, KeyRule::Name);
    assert_eq!(resolver.locked_dependencies[0].0, "a");
    assert_eq!(derive_key(KeyRule::Name, "a", "^1.0.0"), "a");
}

#[test]
fn npm_v2_empty_path_mapping_falls_back_to_flat() {
    let lock = parse_npm_lock(
        r#"{"lockfileVersion": 2,
            "packages": {},
            "dependencies": {"a": {"version": "1.0.0"}}}"#,
    )
    .unwrap();
    let resolver = npm_resolver(&lock);
    assert_eq!(resolver.resolve_dependency_key, KeyRule::Name);
    assert_eq!(resolver.locked_dependencies.len(), 1);
    assert_eq!(resolver.locked_dependencies[0].0, "a");
}

#[test]
fn npm_v2_null_path_mapping_falls_back_to_flat() {
    let lock = parse_npm_lock(
        r#"{"lockfileVersion": 2,
            "packages": null,
            "dependencies": {"a": {"version": "1.0.0"}}}"#,
    )
    .unwrap();
    let resolver = npm_resolver(&lock);
    assert_eq!(resolver.resolve_dependency_key, KeyRule::Name);
    assert_eq!(resolver.locked_dependencies.len(), 1);
}

#[test]
fn pnpm_malformed_text_is_classified() {
    assert_eq!(
        parse_pnpm_lock("lockfileVersion: [unclosed\n"),
        Err(pin_dependencies::types::ParseError::Malformed)
    );
}

#[test]
fn engines_array_is_folded_into_the_mapping_form() {
    let folded = convert_array_to_object_engines(vec![
        String::from("node >= 16"),
        String::from("Npm >=7 "),
        String::from("weird"),
    ]);
    assert_eq!(folded.len(), 2);
    assert_eq!(folded[0].0, Engine::Node);
    assert_eq!(folded[0].1, ">= 16");
    // The match is case-folded but the prefix strip is not, so the
    // capitalized name survives in the value.
    assert_eq!(folded[1].0, Engine::Npm);
    assert_eq!(folded[1].1, "Npm >=7");
}

#[test]
fn engines_mapping_form_passes_through() {
    let engines = Some(NpmLockEngines::Object(vec![(
        Engine::Node,
        String::from(">=14"),
    )]));
    let out = convert_npm_engines_to_object_engines(&engines).unwrap();
    assert_eq!(out, vec![(Engine::Node, String::from(">=14"))]);
    assert!(convert_npm_engines_to_object_engines(&None).is_none());
}

#[test]
fn engines_survive_parsing_and_resolution() {
    let lock = parse_npm_lock(
        r#"{"lockfileVersion": 1,
            "dependencies": {"a": {"version": "1.0.0", "engines": {"Node": ">=14"}}}}"#,
    )
    .unwrap();
    let resolver = npm_resolver(&lock);
    let engines = resolver.locked_dependencies[0].1.engines.as_ref().unwrap();
    assert_eq!(engines[0], (Engine::Node, String::from(">=14")));
}

#[test]
fn yarn_entries_keep_their_composite_keys() {
    let text = "# __metadata: version: 6\n\"a@npm:^1.0.0\":\n  version: 1.0.5\n\"a@npm:^2.0.0\":\n  version: 2.0.1\n";
    let lock = parse_yarn_lock(text).unwrap();
    let flat = transform_yarn_v2_to_lock_dependencies(&lock);
    assert_eq!(flat.len(), 2);
    assert_eq!(flat[0].0, "a@npm:^1.0.0");
    assert_eq!(flat[0].1.version, "1.0.5");
    assert_eq!(flat[1].0, "a@npm:^2.0.0");
    assert_eq!(flat[1].1.version, "2.0.1");
    let resolver = yarn_resolver(&lock);
    assert_eq!(resolver.resolve_dependency_key, KeyRule::NameAtNpmRange);
}

#[test]
fn yarn_key_embeds_the_declared_range() {
    assert_eq!(
        derive_key(KeyRule::NameAtNpmRange, "a", "^1.0.0"),
        "a@npm:^1.0.0"
    );
    assert_ne!(
        derive_key(KeyRule::NameAtNpmRange, "a", "^1.0.0"),
        derive_key(KeyRule::NameAtNpmRange, "a", "^2.0.0")
    );
}

#[test]
fn pnpm_root_importer_mappings_concatenate_in_order() {
    let text = "lockfileVersion: 5.4\nimporters:\n  .:\n    dependencies:\n      a: 1.0.0\n    devDependencies:\n      b: 2.0.0\n    optionalDependencies:\n      c: 3.0.0\n";
    let lock = parse_pnpm_lock(text).unwrap();
    let resolver = pnpm_resolver(&lock).unwrap();
    assert_eq!(resolver.resolve_dependency_key, KeyRule::Name);
    let keys: Vec<&str> = resolver
        .locked_dependencies
        .iter()
        .map(|(k, _)| k.as_str())
        .collect();
    assert_eq!(keys, vec!["a", "b", "c"]);
    assert_eq!(resolver.locked_dependencies[1].1.version, "2.0.0");
}

#[test]
fn pnpm_missing_root_importer_fails_fast() {
    let text = "lockfileVersion: 5.4\nimporters:\n  packages/a:\n    dependencies:\n      x: 1.0.0\n";
    let lock = parse_pnpm_lock(text).unwrap();
    match pnpm_resolver(&lock) {
        Err(ResolveError::MissingRootImporter) => {}
        Ok(_) => panic!("a lock without a root importer must not resolve"),
    }
    let text6 = "lockfileVersion: '6.0'\nimporters:\n  packages/a: {}\n";
    let lock6 = parse_pnpm_lock(text6).unwrap();
    match pnpm_resolver(&lock6) {
        Err(e) => assert_eq!(e.message(), "no resolved dependencies for the project root"),
        Ok(_) => panic!("a lock without a root importer must not resolve"),
    }
}

#[test]
fn pnpm_v6_records_flow_into_the_flat_mapping() {
    let text = "lockfileVersion: '6.0'\nimporters:\n  .:\n    dependencies:\n      a:\n        specifier: ^1.0.0\n        version: 1.2.3\n";
    let lock = parse_pnpm_lock(text).unwrap();
    let resolver = pnpm_resolver(&lock).unwrap();
    assert_eq!(resolver.locked_dependencies.len(), 1);
    assert_eq!(resolver.locked_dependencies[0].0, "a");
    assert_eq!(resolver.locked_dependencies[0].1.version, "1.2.3");
}
