use pin_dependencies::finder::{lock_file_kind, most_recent_index};
use pin_dependencies::pin::{compute_versions_to_pin, VersionToPin};
use pin_dependencies::resolver::{DependencyVersionResolver, KeyRule};
use pin_dependencies::types::{LockDependency, PackageJson, PackageManager};

fn manifest(deps: Vec<(&str, &str)>) -> PackageJson {
    PackageJson {
        name: String::from("demo"),
        dependencies: deps
            .into_iter()
            .map(|(n, v)| (String::from(n), String::from(v)))
            .collect(),
        dev_dependencies: Vec::new(),
        optional_dependencies: Vec::new(),
    }
}

fn resolver(entries: Vec<(&str, &str)>, rule: KeyRule) -> DependencyVersionResolver {
    DependencyVersionResolver {
        locked_dependencies: entries
            .into_iter()
            .map(|(k, v)| {
                (
                    String::from(k),
                    LockDependency { version: String::from(v), engines: None },
                )
            })
            .collect(),
        resolve_dependency_key: rule,
    }
}

#[test]
fn round_trip_emits_exactly_one_proposal() {
    let pkg = manifest(vec![("lodash", "^4.17.0")]);
    let res = resolver(vec![("lodash", "4.17.21")], KeyRule::Name);
    let pins = compute_versions_to_pin(&pkg, &res);
    assert_eq!(
        pins,
        vec![VersionToPin {
            dependency: String::from("lodash"),
            package_version: String::from("^4.17.0"),
            locked_version: String::from("4.17.21"),
        }]
    );
}

#[test]
fn applying_a_proposal_makes_the_rerun_empty() {
    let res = resolver(vec![("lodash", "4.17.21")], KeyRule::Name);
    let before = manifest(vec![("lodash", "^4.17.0")]);
    let pins = compute_versions_to_pin(&before, &res);
    assert_eq!(pins.len(), 1);
    let after = manifest(vec![("lodash", pins[0].locked_version.as_str())]);
    assert!(compute_versions_to_pin(&after, &res).is_empty());
}

#[test]
fn file_dependency_is_never_proposed() {
    let pkg = manifest(vec![("local-pkg", "file:../local-pkg")]);
    // Even a resolver that would match the derived key proposes
    // nothing for a local-path declaration.
    let res = resolver(vec![("local-pkg", "9.9.9")], KeyRule::Name);
    assert!(compute_versions_to_pin(&pkg, &res).is_empty());
}

#[test]
fn exact_declaration_is_never_overridden() {
    let pkg = manifest(vec![("a", "1.0.0")]);
    let res = resolver(vec![("a", "2.0.0")], KeyRule::Name);
    assert!(compute_versions_to_pin(&pkg, &res).is_empty());
}

#[test]
fn range_equal_to_locked_text_is_left_alone() {
    let pkg = manifest(vec![("a", "^1.0.0")]);
    let res = resolver(vec![("a", "^1.0.0")], KeyRule::Name);
    assert!(compute_versions_to_pin(&pkg, &res).is_empty());
}

#[test]
fn unresolved_dependency_is_skipped() {
    let pkg = manifest(vec![("missing", "^1.0.0")]);
    let res = resolver(vec![("other", "1.0.0")], KeyRule::Name);
    assert!(compute_versions_to_pin(&pkg, &res).is_empty());
}

#[test]
fn two_ranges_of_one_name_resolve_independently() {
    let res = resolver(
        vec![("a@npm:^1.0.0", "1.0.5"), ("a@npm:^2.0.0", "2.0.1")],
        KeyRule::NameAtNpmRange,
    );
    let one = compute_versions_to_pin(&manifest(vec![("a", "^1.0.0")]), &res);
    assert_eq!(one[0].locked_version, "1.0.5");
    let two = compute_versions_to_pin(&manifest(vec![("a", "^2.0.0")]), &res);
    assert_eq!(two[0].locked_version, "2.0.1");
}

#[test]
fn proposals_keep_manifest_order_across_mappings() {
    let pkg = PackageJson {
        name: String::from("demo"),
        dependencies: vec![
            (String::from("b"), String::from("^1.0.0")),
            (String::from("a"), String::from("^1.0.0")),
        ],
        dev_dependencies: vec![(String::from("d"), String::from("^1.0.0"))],
        optional_dependencies: vec![(String::from("c"), String::from("^1.0.0"))],
    };
    let res = resolver(
        vec![
            ("a", "1.0.1"),
            ("b", "1.0.1"),
            ("c", "1.0.1"),
            ("d", "1.0.1"),
        ],
        KeyRule::Name,
    );
    let names: Vec<String> = compute_versions_to_pin(&pkg, &res)
        .into_iter()
        .map(|p| p.dependency)
        .collect();
    assert_eq!(names, vec!["b", "a", "d", "c"]);
}

#[test]
fn generate_update_command() {
    let tests: [(u8, u8, &str); 11] = [
        // verbose, quiet, expected_command
        (0, 0, "npd -u"),
        (1, 0, "npd -v -u"),
        (2, 0, "npd -vv -u"),
        (3, 0, "npd -vvv -u"),
        (4, 0, "npd -vvvv -u"),
        (5, 0, "npd -vvvv -u"),
        (255, 0, "npd -vvvv -u"),
        (0, 1, "npd -q -u"),
        (0, 2, "npd -q -u"),
        (0, 255, "npd -q -u"),
        (255, 255, "npd -u"),
    ];

    for (verbose, quiet, expected_command) in &tests {
        let verbosity: clap_verbosity_flag::Verbosity =
            clap_verbosity_flag::Verbosity::new(*verbose, *quiet);
        let level_value: i8 = match verbosity.log_level() {
            None => -1,
            Some(log::Level::Error) => 0,
            Some(log::Level::Warn) => 1,
            Some(log::Level::Info) => 2,
            Some(log::Level::Debug) => 3,
            Some(log::Level::Trace) => 4,
        };
        assert_eq!(
            pin_dependencies::command::generate_update_command(verbosity.is_silent(), level_value),
            *expected_command,
            "verbose = {verbose}, quiet = {quiet}, expected = {expected_command}"
        );
    }
}

#[test]
fn spinner_cycles_through_its_frames() {
    let mut spinner = pin_dependencies::spinner::elegant_spinner();
    assert_eq!(spinner.index, 0);
    assert_eq!(spinner.tick(), "⠙");
    let mut last = "";
    for _ in 0..9 {
        last = spinner.tick();
    }
    assert_eq!(spinner.index, 0);
    assert_eq!(last, "⠋");
    assert_eq!(spinner.tick(), "⠙");
}

#[test]
fn lock_file_names_map_to_their_managers() {
    assert_eq!(lock_file_kind("package-lock.json"), Some(PackageManager::Npm));
    assert_eq!(lock_file_kind("yarn.lock"), Some(PackageManager::Yarn));
    assert_eq!(lock_file_kind("pnpm-lock.yaml"), Some(PackageManager::Pnpm));
    assert_eq!(lock_file_kind("Cargo.lock"), None);
}

#[test]
fn most_recent_pick_follows_the_first_strictly_greater_rule() {
    assert_eq!(most_recent_index(&Vec::new()), None);
    assert_eq!(most_recent_index(&vec![None, None]), Some(0));
    assert_eq!(most_recent_index(&vec![Some(1), Some(5), Some(3)]), Some(1));
    assert_eq!(most_recent_index(&vec![Some(5), Some(5)]), Some(0));
    assert_eq!(most_recent_index(&vec![Some(1), Some(2)]), Some(1));
    assert_eq!(most_recent_index(&vec![None, Some(1)]), Some(1));
}
