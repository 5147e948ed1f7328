use cargo_readme::badges::{
    appveyor, badge_service_short_name, circle_ci, codecov, coveralls, github, gitlab,
    is_it_maintained_issue_resolution, is_it_maintained_open_issues, maintenance, travis_ci, Badge,
    MaintenanceStatus,
};
use cargo_readme::config::{find_input, get_config, ConfigError, ReadmeConfigDefaults};
use cargo_readme::manifest::{
    can_render, get_attr, process_badge, process_badges, BadgeTable, Badges, CargoLib, CargoPackage,
    CrateInfo, CrateManifest, Manifest, ManifestError, ManifestLib, Package, Product, RawManifest,
    Setting, Target,
};
use cargo_readme::process::fix_headings;

fn target(path: &str, doc: bool) -> ManifestLib {
    ManifestLib { path: path.to_owned(), doc }
}

fn manifest(lib: Option<ManifestLib>, bin: Vec<ManifestLib>) -> Manifest {
    Manifest {
        name: "readme-test".to_owned(),
        license: None,
        lib,
        bin,
        badges: Vec::new(),
        version: "0.1.0".to_owned(),
    }
}

#[test]
fn entry_points_are_tried_in_order() {
    let m = manifest(Some(target("src/entry.rs", true)), vec![target("src/bin.rs", true)]);
    assert_eq!(find_input(true, true, &m).unwrap(), "src/lib.rs");
    assert_eq!(find_input(false, true, &m).unwrap(), "src/main.rs");
    assert_eq!(find_input(false, false, &m).unwrap(), "src/entry.rs");
    let hidden_lib = manifest(Some(target("src/entry.rs", false)), vec![target("src/bin.rs", true)]);
    assert_eq!(find_input(false, false, &hidden_lib).unwrap(), "src/bin.rs");
    let one_documented =
        manifest(None, vec![target("src/a.rs", false), target("src/b.rs", true), target("src/c.rs", false)]);
    assert_eq!(find_input(false, false, &one_documented).unwrap(), "src/b.rs");
}

#[test]
fn several_binaries_are_an_error() {
    let m = manifest(None, vec![target("src/a.rs", true), target("src/b.rs", false), target("src/c.rs", true)]);
    let err = find_input(false, false, &m).unwrap_err();
    assert!(matches!(&err, ConfigError::MultipleBinaries(p) if p == &["src/a.rs", "src/c.rs"]));
    assert_eq!(err.message(), "Multiple binaries found, choose one: [src/a.rs, src/c.rs]");
}

#[test]
fn no_entry_point_is_an_error() {
    let err = find_input(false, false, &manifest(None, vec![target("src/a.rs", false)])).unwrap_err();
    assert!(matches!(err, ConfigError::NoEntrypoint));
    assert_eq!(err.message(), "No entrypoint found");
}

#[test]
fn settings_take_their_defaults() {
    let m = manifest(None, Vec::new());
    let config = get_config(ReadmeConfigDefaults::default(), "/project".to_owned(), true, false, &m).unwrap();
    assert_eq!(config.root, "/project");
    assert_eq!(config.input, "src/lib.rs");
    assert_eq!(config.template, None);
    assert!(config.add_title && config.add_badges && config.add_license && config.indent_headings);

    let chosen = ReadmeConfigDefaults {
        root: Some("/other".to_owned()),
        input: Some("src/doc.rs".to_owned()),
        template: Some("README.tpl".to_owned()),
        add_title: Some(false),
        add_badges: None,
        add_license: Some(false),
        indent_headings: Some(true),
    };
    let config = get_config(chosen, "/project".to_owned(), false, false, &m).unwrap();
    assert_eq!(config.root, "/other");
    assert_eq!(config.input, "src/doc.rs");
    assert_eq!(config.template.as_deref(), Some("README.tpl"));
    assert!(!config.add_title && config.add_badges && !config.add_license && config.indent_headings);

    let none = get_config(ReadmeConfigDefaults::default(), "/project".to_owned(), false, false, &m);
    assert!(matches!(none, Err(ConfigError::NoEntrypoint)));
}

#[test]
fn lib_path_has_a_default() {
    assert_eq!(CargoLib { path: None }.path_or_default(), "src/lib.rs");
    assert_eq!(CargoLib { path: Some("src/x.rs".to_owned()) }.path_or_default(), "src/x.rs");
}

fn badge(repository: &str, branch: &str, service: Option<&str>) -> Badge {
    Badge {
        repository: repository.to_owned(),
        branch: branch.to_owned(),
        service: service.map(|s| s.to_owned()),
    }
}

#[test]
fn badge_links() {
    assert_eq!(
        appveyor(badge("me/repo", "master", None)),
        "[![Build Status](https://ci.appveyor.com/api/projects/status/github/me/repo?branch=master&svg=true)](https://ci.appveyor.com/project/me/repo/branch/master)"
    );
    assert_eq!(
        circle_ci(badge("me/repo", "master", Some("bitbucket"))),
        "[![Build Status](https://circleci.com/bb/me/repo/tree/master.svg?style=shield)](https://circleci.com/bb/me/repo/tree/master)"
    );
    assert_eq!(
        gitlab(badge("me/repo", "master", None)),
        "[![Build Status](https://gitlab.com/me/repo/badges/master/pipeline.svg)](https://gitlab.com/me/repo/commits/master)"
    );
    assert_eq!(
        travis_ci(badge("me/repo", "master", None)),
        "[![Build Status](https://travis-ci.org/me/repo.svg?branch=master)](https://travis-ci.org/me/repo)"
    );
    assert_eq!(
        github(badge("me/repo", "master", None)),
        "[![Workflow Status](https://github.com/me/repo/workflows/main/badge.svg)](https://github.com/me/repo/actions?query=workflow%3A%22main%22)"
    );
    assert_eq!(
        codecov(badge("me/repo", "master", Some("gitlab"))),
        "[![Coverage Status](https://codecov.io/gl/me/repo/branch/master/graph/badge.svg)](https://codecov.io/gl/me/repo)"
    );
    assert_eq!(
        coveralls(badge("me/repo", "dev", Some("bitbucket"))),
        "[![Coverage Status](https://coveralls.io/repos/bitbucket/me/repo/badge.svg?branch=branch)](https://coveralls.io/bitbucket/me/repo?branch=dev)"
    );
    assert_eq!(
        is_it_maintained_issue_resolution(badge("me/repo", "master", None)),
        "[![Average time to resolve an issue](https://isitmaintained.com/badge/resolution/me/repo.svg)](https://isitmaintained.com/project/me/repo \"Average time to resolve an issue\")"
    );
    assert_eq!(
        is_it_maintained_open_issues(badge("me/repo", "master", None)),
        "[![Percentage of issues still open](https://isitmaintained.com/badge/open/me/repo.svg)](https://isitmaintained.com/project/me/repo \"Percentage of issues still open\")"
    );
}

#[test]
fn branch_names_are_percent_encoded() {
    assert_eq!(
        travis_ci(badge("me/repo", "feature/x y-1_\u{fc}", None)),
        "[![Build Status](https://travis-ci.org/me/repo.svg?branch=feature%2Fx%20y%2D1%5F%C3%BC)](https://travis-ci.org/me/repo)"
    );
    assert_eq!(
        gitlab(badge("me/repo", "a.b~c", None)),
        "[![Build Status](https://gitlab.com/me/repo/badges/a%2Eb%7Ec/pipeline.svg)](https://gitlab.com/me/repo/commits/master)"
    );
}

#[test]
fn services_have_short_names() {
    assert_eq!(badge_service_short_name("github"), "gh");
    assert_eq!(badge_service_short_name("bitbucket"), "bb");
    assert_eq!(badge_service_short_name("gitlab"), "gl");
    assert_eq!(badge_service_short_name("sourcehut"), "gh");
}

#[test]
fn maintenance_badges() {
    assert_eq!(maintenance(MaintenanceStatus::NotDeclared), None);
    assert_eq!(
        maintenance(MaintenanceStatus::ActivelyDeveloped).unwrap(),
        "![Maintenance](https://img.shields.io/badge/maintenance-activly--developed-brightgreen.svg)"
    );
    assert_eq!(
        maintenance(MaintenanceStatus::PassivelyMaintained).unwrap(),
        "![Maintenance](https://img.shields.io/badge/maintenance-passively--maintained-yellowgreen.svg)"
    );
    assert_eq!(
        maintenance(MaintenanceStatus::AsIs).unwrap(),
        "![Maintenance](https://img.shields.io/badge/maintenance-as--is-yellow.svg)"
    );
    assert_eq!(
        maintenance(MaintenanceStatus::Experimental).unwrap(),
        "![Maintenance](https://img.shields.io/badge/maintenance-experimental-blue.svg)"
    );
    assert_eq!(
        maintenance(MaintenanceStatus::LookingForMaintainer).unwrap(),
        "![Maintenance](https://img.shields.io/badge/maintenance-looking--for--maintainer-darkblue.svg)"
    );
    assert_eq!(
        maintenance(MaintenanceStatus::Deprecated).unwrap(),
        "![Maintenance](https://img.shields.io/badge/maintenance-deprecated-red.svg)"
    );
}

fn no_badges() -> Badges {
    Badges {
        appveyor: None,
        circle_ci: None,
        gitlab: None,
        travis_ci: None,
        codecov: None,
        coveralls: None,
        is_it_maintained_issue_resolution: None,
        is_it_maintained_open_issues: None,
        maintenance: MaintenanceStatus::NotDeclared,
    }
}

fn package(license: Option<Setting>, version: Setting) -> Option<Package> {
    Some(Package { name: "readme-test".to_owned(), license, version })
}

#[test]
fn manifest_is_picked_from_what_was_read() {
    let mut badges = no_badges();
    badges.travis_ci = Some(badge("me/repo", "master", None));
    badges.appveyor = Some(badge("me/repo", "master", None));
    badges.maintenance = MaintenanceStatus::Deprecated;
    let raw = RawManifest {
        package: package(Some(Setting::Given("MIT".to_owned())), Setting::Given("1.2.3".to_owned())),
        lib: Some(Product { path: Some("src/entry.rs".to_owned()), doc: true }),
        bin: vec![
            Product { path: None, doc: true },
            Product { path: Some("src/bin.rs".to_owned()), doc: false },
        ],
        badges,
    };
    let m = Manifest::try_new(raw).unwrap();
    assert_eq!(m.name, "readme-test");
    assert_eq!(m.license.as_deref(), Some("MIT"));
    assert_eq!(m.version, "1.2.3");
    let lib = m.lib.unwrap();
    assert_eq!((lib.path.as_str(), lib.doc), ("src/entry.rs", true));
    assert_eq!(m.bin.len(), 1);
    assert_eq!((m.bin[0].path.as_str(), m.bin[0].doc), ("src/bin.rs", false));
    assert_eq!(m.badges.len(), 3);
    assert!(m.badges[0].contains("appveyor"));
    assert!(m.badges[1].contains("travis-ci"));
    assert!(m.badges[2].contains("deprecated-red"));
}

#[test]
fn manifest_errors() {
    let raw = |package| RawManifest { package, lib: None, bin: Vec::new(), badges: no_badges() };
    let missing = Manifest::try_new(raw(None)).unwrap_err();
    assert_eq!(missing, ManifestError::MissingPackage);
    assert_eq!(missing.message(), "Missing [package] section in Cargo.toml");
    let license = Manifest::try_new(raw(package(Some(Setting::Inherited), Setting::Inherited)));
    assert_eq!(license.unwrap_err(), ManifestError::InheritedLicense);
    let version = Manifest::try_new(raw(package(None, Setting::Inherited))).unwrap_err();
    assert_eq!(version, ManifestError::InheritedVersion);
    assert_eq!(version.message(), "InheritedUnknownValue");
    let fine = Manifest::try_new(raw(package(None, Setting::Given("0.1.0".to_owned())))).unwrap();
    assert_eq!(fine.license, None);
    assert!(fine.badges.is_empty() && fine.bin.is_empty() && fine.lib.is_none());
}

#[test]
fn product_without_path_is_no_target() {
    assert!(ManifestLib::from_cargo_toml(None).is_none());
    assert!(ManifestLib::from_cargo_toml(Some(&Product { path: None, doc: true })).is_none());
    let lib = ManifestLib::from_cargo_toml(Some(&Product { path: Some("a.rs".to_owned()), doc: false }));
    let lib = lib.unwrap();
    assert_eq!((lib.path.as_str(), lib.doc), ("a.rs", false));
}

#[test]
fn every_hash_line_goes_one_level_down() {
    let data = vec!["# a".to_owned(), "b".to_owned(), "##c".to_owned(), "".to_owned()];
    assert_eq!(fix_headings(data), ["## a", "b", "###c", ""]);
}

fn table(name: &str, attrs: &[(&str, &str)]) -> BadgeTable {
    BadgeTable {
        name: name.to_owned(),
        attrs: attrs.iter().map(|(k, v)| (k.to_string(), v.to_string())).collect(),
    }
}

#[test]
fn badge_tables_take_their_defaults() {
    let bare = table("appveyor", &[("repository", "me/repo")]);
    assert!(can_render(&bare));
    assert_eq!(
        process_badge(&bare),
        "[![Build status](https://ci.appveyor.com/api/projects/status/github/me/repo?branch=master&svg=true)](https://ci.appveyor.com/project/me/repo/branch/master)"
    );
    let full = table(
        "appveyor",
        &[("branch", "dev"), ("repository", "me/repo"), ("service", "gitlab"), ("branch", "late")],
    );
    assert_eq!(
        process_badges(&vec![full]),
        ["[![Build status](https://ci.appveyor.com/api/projects/status/gitlab/me/repo?branch=dev&svg=true)](https://ci.appveyor.com/project/me/repo/branch/dev)"]
    );
    assert!(!can_render(&table("appveyor", &[("branch", "dev")])));
    assert!(!can_render(&table("travis-ci", &[("repository", "me/repo")])));
    assert_eq!(get_attr(&table("x", &[("a", "1"), ("a", "2")]).attrs, "a").as_deref(), Some("1"));
    assert_eq!(get_attr(&table("x", &[("a", "1")]).attrs, "b"), None);
}

#[test]
fn crate_info_is_picked_from_the_manifest() {
    let manifest = CrateManifest {
        package: CargoPackage { name: "readme-test".to_owned(), license: Some("MIT".to_owned()) },
        lib: Some(Target { path: "src/entry.rs".to_owned(), doc: Some(false) }),
        bin: Some(vec![
            Target { path: "src/a.rs".to_owned(), doc: None },
            Target { path: "src/b.rs".to_owned(), doc: Some(true) },
        ]),
        badges: vec![table("appveyor", &[("repository", "me/repo")])],
    };
    let info = CrateInfo::new(manifest);
    assert_eq!(info.name, "readme-test");
    assert_eq!(info.license.as_deref(), Some("MIT"));
    assert_eq!(info.lib, Some(("src/entry.rs".to_owned(), Some(false))));
    assert_eq!(info.bin, [("src/a.rs".to_owned(), None), ("src/b.rs".to_owned(), Some(true))]);
    assert_eq!(info.badges.len(), 1);
    assert!(info.badges[0].starts_with("[![Build status](https://ci.appveyor.com/"));
}
