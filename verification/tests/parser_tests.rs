use pin_dependencies::parser::{
    parse_lock, parse_npm_lock, parse_package, parse_pnpm_lock, parse_yarn_lock,
};
use pin_dependencies::types::{
    NpmLock, PackageManager, PackageManagerLock, ParseError, PnpmLock,
    VersionedDependencyOrResolved,
};

#[test]
fn npm_unsupported_integer_version_is_explicit() {
    let r = parse_npm_lock(r#"{"lockfileVersion": 4}"#);
    assert_eq!(r, Err(ParseError::UnsupportedVersion));
    let r = parse_npm_lock(r#"{"lockfileVersion": 99, "dependencies": {}}"#);
    assert_eq!(r, Err(ParseError::UnsupportedVersion));
    let r = parse_npm_lock(r#"{"lockfileVersion": 1000000}"#);
    assert_eq!(r, Err(ParseError::UnsupportedVersion));
}

#[test]
fn npm_version_field_missing() {
    assert_eq!(parse_npm_lock(r#"{}"#), Err(ParseError::VersionFieldNotFound));
    assert_eq!(parse_npm_lock(r#"[1, 2]"#), Err(ParseError::VersionFieldNotFound));
}

#[test]
fn npm_version_field_wrong_type() {
    assert_eq!(
        parse_npm_lock(r#"{"lockfileVersion": "2"}"#),
        Err(ParseError::InvalidVersionField)
    );
    assert_eq!(
        parse_npm_lock(r#"{"lockfileVersion": 2.5}"#),
        Err(ParseError::InvalidVersionField)
    );
    assert_eq!(
        parse_npm_lock(r#"{"lockfileVersion": -1}"#),
        Err(ParseError::InvalidVersionField)
    );
}

#[test]
fn npm_malformed_text() {
    assert_eq!(parse_npm_lock("{not json"), Err(ParseError::Malformed));
}

#[test]
fn npm_v1_flat_mapping_parses() {
    let r = parse_npm_lock(
        r#"{"lockfileVersion": 1, "dependencies": {"a": {"version": "1.0.0"}}}"#,
    )
    .unwrap();
    match r {
        NpmLock::Version1(l) => {
            assert_eq!(l.lockfile_version, 1);
            assert_eq!(l.dependencies.len(), 1);
            assert_eq!(l.dependencies[0].0, "a");
            match &l.dependencies[0].1 {
                VersionedDependencyOrResolved::Versioned(v) => {
                    assert_eq!(v.version, "1.0.0");
                    assert!(v.engines.is_none());
                }
                _ => panic!("expected an exact-version entry"),
            }
        }
        _ => panic!("expected revision 1"),
    }
}

#[test]
fn npm_v1_missing_mapping_defaults_empty() {
    let r = parse_npm_lock(r#"{"lockfileVersion": 1}"#).unwrap();
    match r {
        NpmLock::Version1(l) => assert!(l.dependencies.is_empty()),
        _ => panic!("expected revision 1"),
    }
}

#[test]
fn npm_v2_carries_both_mappings() {
    let r = parse_npm_lock(
        r#"{"lockfileVersion": 2,
            "packages": {"node_modules/a": {"version": "1.0.0"}},
            "dependencies": {"a": {"version": "1.0.0"}}}"#,
    )
    .unwrap();
    match r {
        NpmLock::Version2(l) => {
            assert_eq!(l.lockfile_version, 2);
            let packages = l.packages.expect("packages should be present");
            assert_eq!(packages.len(), 1);
            assert_eq!(packages[0].0, "node_modules/a");
            assert_eq!(l.dependencies.len(), 1);
        }
        _ => panic!("expected revision 2"),
    }
}

#[test]
fn npm_v3_path_keyed_mapping_only() {
    let r = parse_npm_lock(
        r#"{"lockfileVersion": 3, "packages": {"node_modules/a": {"version": "2.0.0"}}}"#,
    )
    .unwrap();
    match r {
        NpmLock::Version3(l) => {
            assert_eq!(l.lockfile_version, 3);
            assert_eq!(l.packages.len(), 1);
        }
        _ => panic!("expected revision 3"),
    }
}

#[test]
fn npm_bad_mapping_shape_is_structural_error() {
    assert_eq!(
        parse_npm_lock(r#"{"lockfileVersion": 1, "dependencies": 5}"#),
        Err(ParseError::InvalidStructure)
    );
    // An entry with neither a version nor a link flag fits no shape.
    assert_eq!(
        parse_npm_lock(r#"{"lockfileVersion": 1, "dependencies": {"a": {}}}"#),
        Err(ParseError::InvalidStructure)
    );
}

#[test]
fn npm_alias_record_parses() {
    let r = parse_npm_lock(
        r#"{"lockfileVersion": 3,
            "packages": {"node_modules/a": {"resolved": "node_modules/b", "link": true}}}"#,
    )
    .unwrap();
    match r {
        NpmLock::Version3(l) => match &l.packages[0].1 {
            VersionedDependencyOrResolved::Resolved(rd) => {
                assert_eq!(rd.resolved.as_deref(), Some("node_modules/b"));
                assert!(rd.link);
            }
            _ => panic!("expected an aliasing record"),
        },
        _ => panic!("expected revision 3"),
    }
}

#[test]
fn yarn_classic_marker_is_refused() {
    let text = "# THIS IS AN AUTOGENERATED FILE\n# yarn lockfile v1\n\na@^1.0.0:\n  version \"1.0.5\"\n";
    assert_eq!(parse_yarn_lock(text), Err(ParseError::YarnClassicUnsupported));
}

#[test]
fn yarn_unknown_content_is_refused() {
    assert_eq!(parse_yarn_lock("hello: world\n"), Err(ParseError::YarnUnknownFormat));
}

#[test]
fn yarn_v2_metadata_marker_parses() {
    let text = "# __metadata: version: 6\n\"a@npm:^1.0.0\":\n  version: 1.0.5\n  resolved: registry\n";
    let r = parse_yarn_lock(text).unwrap();
    assert_eq!(r.len(), 1);
    assert_eq!(r[0].0, "a@npm:^1.0.0");
    assert_eq!(r[0].1.version, "1.0.5");
    assert_eq!(r[0].1.resolved.as_deref(), Some("registry"));
    assert!(r[0].1.dependencies.is_none());
}

#[test]
fn yarn_v2_marker_allows_newlines_between_parts() {
    let text = "__metadata:\n  version: 6\n\"a@npm:^1.0.0\":\n  version: \"1.0.5\"\n";
    // The marker is found; the metadata entry itself does not fit the
    // entry shape (its version is a number), so the parse is refused
    // as structural.
    assert_eq!(parse_yarn_lock(text), Err(ParseError::InvalidStructure));
}

#[test]
fn yarn_v2_marker_edge_shapes() {
    // A carriage return counts as the line break after the digit.
    let with_cr = "# __metadata: version: 6\r\n\"a@npm:^1.0.0\":\n  version: 1.0.5\n";
    assert!(parse_yarn_lock(with_cr).is_ok());
    // The metadata head alone, with no version key, is no marker.
    assert_eq!(
        parse_yarn_lock("# __metadata:\nsomething: else\n"),
        Err(ParseError::YarnUnknownFormat)
    );
    // A non-digit after the version key is no marker either.
    assert_eq!(
        parse_yarn_lock("# __metadata: version: x\n"),
        Err(ParseError::YarnUnknownFormat)
    );
}

#[test]
fn pnpm_numeric_and_string_discriminators_agree() {
    let numeric = "lockfileVersion: 5.4\nimporters:\n  .: {}\n";
    let quoted = "lockfileVersion: '5.4'\nimporters:\n  .: {}\n";
    let a = parse_pnpm_lock(numeric).unwrap();
    let b = parse_pnpm_lock(quoted).unwrap();
    match (&a, &b) {
        (PnpmLock::Version5(x), PnpmLock::Version5(y)) => {
            assert_eq!(x.lockfile_version, "5.4");
            assert_eq!(y.lockfile_version, "5.4");
            assert_eq!(x.importers.len(), 1);
            assert_eq!(x.importers[0].0, ".");
        }
        _ => panic!("expected the older revision twice"),
    }
}

#[test]
fn pnpm_v6_importer_records_parse() {
    let text = "lockfileVersion: '6.0'\nimporters:\n  .:\n    dependencies:\n      a:\n        specifier: ^1.0.0\n        version: 1.2.3\n";
    let r = parse_pnpm_lock(text).unwrap();
    match r {
        PnpmLock::Version6(l) => {
            assert_eq!(l.lockfile_version, "6.0");
            let deps = l.importers[0].1.dependencies.as_ref().unwrap();
            assert_eq!(deps[0].0, "a");
            assert_eq!(deps[0].1.version, "1.2.3");
        }
        _ => panic!("expected the newer revision"),
    }
}

#[test]
fn pnpm_unsupported_version_is_explicit() {
    assert_eq!(
        parse_pnpm_lock("lockfileVersion: '7.0'\nimporters:\n  .: {}\n"),
        Err(ParseError::UnsupportedVersion)
    );
}

#[test]
fn pnpm_version_field_errors() {
    assert_eq!(
        parse_pnpm_lock("importers:\n  .: {}\n"),
        Err(ParseError::VersionFieldNotFound)
    );
    assert_eq!(
        parse_pnpm_lock("lockfileVersion: true\n"),
        Err(ParseError::InvalidVersionField)
    );
    assert_eq!(
        parse_pnpm_lock("lockfileVersion: '5.4'\n"),
        Err(ParseError::InvalidStructure)
    );
}

#[test]
fn parse_package_reads_three_mappings_in_order() {
    let text = r#"{"name": "demo",
        "dependencies": {"b": "^1.0.0", "a": "2.0.0"},
        "devDependencies": {"c": "~3.0.0"}}"#;
    let p = parse_package(text).unwrap();
    assert_eq!(p.name, "demo");
    assert_eq!(p.dependencies.len(), 2);
    assert_eq!(p.dev_dependencies.len(), 1);
    assert!(p.optional_dependencies.is_empty());
    assert_eq!(p.dev_dependencies[0].0, "c");
}

#[test]
fn parse_package_requires_name_and_shapes() {
    assert_eq!(parse_package(r#"{}"#), Err(ParseError::InvalidStructure));
    assert_eq!(
        parse_package(r#"{"name": "demo", "dependencies": {"a": 1}}"#),
        Err(ParseError::InvalidStructure)
    );
    assert_eq!(parse_package("nope{"), Err(ParseError::Malformed));
}

#[test]
fn parse_lock_dispatches_on_manager() {
    let npm = r#"{"lockfileVersion": 1, "dependencies": {"a": {"version": "1.0.0"}}}"#;
    match parse_lock(npm, &PackageManager::Npm).unwrap() {
        PackageManagerLock::Npm(NpmLock::Version1(_)) => {}
        _ => panic!("expected an ecosystem A revision 1 lock"),
    }
    let yarn = "# __metadata: version: 6\n\"a@npm:^1.0.0\":\n  version: 1.0.5\n";
    match parse_lock(yarn, &PackageManager::Yarn).unwrap() {
        PackageManagerLock::Yarn(y) => assert_eq!(y.len(), 1),
        _ => panic!("expected an ecosystem B lock"),
    }
    let pnpm = "lockfileVersion: 5.4\nimporters:\n  .: {}\n";
    match parse_lock(pnpm, &PackageManager::Pnpm).unwrap() {
        PackageManagerLock::Pnpm(PnpmLock::Version5(_)) => {}
        _ => panic!("expected an ecosystem C older-revision lock"),
    }
}

#[test]
fn parse_error_messages_are_classified() {
    assert_eq!(
        ParseError::UnsupportedVersion.message(),
        "unsupported lockfile version"
    );
    assert_eq!(
        ParseError::VersionFieldNotFound.message(),
        "lockfileVersion field not found"
    );
}
