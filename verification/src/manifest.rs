//! What a package manifest says of a crate, as far as a README needs it.
//!
//! The manifest comes in as plain values, as a TOML reader found them; the
//! functions here pick and check what goes into the README.

use vstd::prelude::*;
use vstd::string::*;
use crate::badges::{
    appveyor, appveyor_text, circle_ci, circle_ci_text, codecov, codecov_text, coveralls,
    coveralls_text, gitlab, gitlab_text, is_it_maintained_issue_resolution,
    is_it_maintained_open_issues, issue_resolution_text, maintenance, maintenance_text,
    open_issues_text, travis_ci, travis_ci_text, Badge, MaintenanceStatus,
};
use crate::text::{text_of, texts};

verus! {

/// The default entry point of a library.
pub const DEFAULT_LIB: &'static str = "src/lib.rs";

/// A build target of the manifest: where its root file lies, and whether it
/// is documented.
#[derive(Debug)]
pub struct ManifestLib {
    pub path: String,
    pub doc: bool,
}

/// The package data that goes into a README.
#[derive(Debug)]
pub struct Manifest {
    pub name: String,
    pub license: Option<String>,
    pub lib: Option<ManifestLib>,
    pub bin: Vec<ManifestLib>,
    /// The badges of the package, each rendered as markdown.
    pub badges: Vec<String>,
    pub version: String,
}

/// A value of the `[package]` table: set in place, or left to the workspace.
#[derive(Debug)]
pub enum Setting {
    Given(String),
    Inherited,
}

/// The `[package]` table as read.
#[derive(Debug)]
pub struct Package {
    pub name: String,
    pub license: Option<Setting>,
    pub version: Setting,
}

/// A `[lib]` or `[[bin]]` table as read.
#[derive(Debug)]
pub struct Product {
    pub path: Option<String>,
    pub doc: bool,
}

/// The `[badges]` table as read.
#[derive(Debug)]
pub struct Badges {
    pub appveyor: Option<Badge>,
    pub circle_ci: Option<Badge>,
    pub gitlab: Option<Badge>,
    pub travis_ci: Option<Badge>,
    pub codecov: Option<Badge>,
    pub coveralls: Option<Badge>,
    pub is_it_maintained_issue_resolution: Option<Badge>,
    pub is_it_maintained_open_issues: Option<Badge>,
    pub maintenance: MaintenanceStatus,
}

/// A manifest as read.
#[derive(Debug)]
pub struct RawManifest {
    pub package: Option<Package>,
    pub lib: Option<Product>,
    pub bin: Vec<Product>,
    pub badges: Badges,
}

/// Why a manifest cannot serve.
#[derive(Clone, Copy, Debug, PartialEq, Eq, Structural)]
pub enum ManifestError {
    /// The manifest has no `[package]` table.
    MissingPackage,
    /// The license is left to a workspace that was not read.
    InheritedLicense,
    /// The version is left to a workspace that was not read.
    InheritedVersion,
}

impl ManifestError {
    /// A one-line description of the error.
    pub fn message(&self) -> (r: String)
        ensures
            r@ == (match self {
                ManifestError::MissingPackage => "Missing [package] section in Cargo.toml"@,
                ManifestError::InheritedLicense => "InheritedUnknownValue"@,
                ManifestError::InheritedVersion => "InheritedUnknownValue"@,
            }),
    {
        match self {
            ManifestError::MissingPackage => String::from_str(
                "Missing [package] section in Cargo.toml",
            ),
            ManifestError::InheritedLicense => String::from_str("InheritedUnknownValue"),
            ManifestError::InheritedVersion => String::from_str("InheritedUnknownValue"),
        }
    }
}

/// A target as the contracts see it: its path and whether it is documented.
pub open spec fn target_of(lib: ManifestLib) -> (Seq<char>, bool) {
    (lib.path@, lib.doc)
}

/// The target that a product table declares: none without a path.
pub open spec fn product_target(product: Option<Product>) -> Option<(Seq<char>, bool)> {
    match product {
        Some(p) => match p.path {
            Some(path) => Some((path@, p.doc)),
            None => None,
        },
        None => None,
    }
}

/// The targets of the product tables that have a path, in order.
pub open spec fn product_targets(products: Seq<Product>) -> Seq<(Seq<char>, bool)>
    decreases products.len(),
{
    if products.len() == 0 {
        Seq::empty()
    } else {
        match product_target(Some(products.last())) {
            Some(t) => product_targets(products.drop_last()).push(t),
            None => product_targets(products.drop_last()),
        }
    }
}

/// The targets of a list of targets, as the contracts see them.
pub open spec fn targets_of(libs: Seq<ManifestLib>) -> Seq<(Seq<char>, bool)> {
    Seq::new(libs.len(), |i: int| target_of(libs[i]))
}

/// A list of at most one text.
pub open spec fn one_or_none(text: Option<Seq<char>>) -> Seq<Seq<char>> {
    match text {
        Some(t) => seq![t],
        None => Seq::empty(),
    }
}

/// The text that `render` gives for a badge, where there is one.
pub open spec fn rendered(badge: Option<Badge>, render: spec_fn(Badge) -> Seq<char>) -> Seq<
    Seq<char>,
> {
    match badge {
        Some(b) => seq![render(b)],
        None => Seq::empty(),
    }
}

/// The badges of a manifest as markdown, in a fixed order: AppVeyor,
/// CircleCI, GitLab, Travis CI, Codecov, Coveralls, the two of
/// isitmaintained.com, and maintenance.
pub open spec fn badge_texts(badges: Badges) -> Seq<Seq<char>> {
    rendered(badges.appveyor, |b: Badge| appveyor_text(b)) + rendered(
        badges.circle_ci,
        |b: Badge| circle_ci_text(b),
    ) + rendered(badges.gitlab, |b: Badge| gitlab_text(b)) + rendered(
        badges.travis_ci,
        |b: Badge| travis_ci_text(b),
    ) + rendered(badges.codecov, |b: Badge| codecov_text(b)) + rendered(
        badges.coveralls,
        |b: Badge| coveralls_text(b),
    ) + rendered(badges.is_it_maintained_issue_resolution, |b: Badge| issue_resolution_text(b))
        + rendered(badges.is_it_maintained_open_issues, |b: Badge| open_issues_text(b))
        + one_or_none(maintenance_text(badges.maintenance))
}

impl ManifestLib {
    /// The target that a product table declares: none without a path.
    pub fn from_cargo_toml(product: Option<&Product>) -> (r: Option<ManifestLib>)
        ensures
            match r {
                Some(lib) => product matches Some(p) && product_target(Some(*p)) == Some(
                    target_of(lib),
                ),
                None => product matches Some(p) ==> product_target(Some(*p)) is None,
            },
    {
        match product {
            Some(p) => match &p.path {
                Some(path) => Some(ManifestLib { path: path.clone(), doc: p.doc }),
                None => None,
            },
            None => None,
        }
    }
}

/// Appends `text` to `out`, where there is one.
fn push_some(out: &mut Vec<String>, text: Option<String>)
    ensures
        texts(final(out)@) == texts(old(out)@) + one_or_none(text_of(text)),
{
    let ghost before = out@;
    match text {
        Some(t) => {
            out.push(t);
            proof {
                assert(texts(out@) =~= texts(before) + seq![t@]);
            }
        },
        None => {
            proof {
                assert(texts(out@) =~= texts(before) + Seq::<Seq<char>>::empty());
            }
        },
    }
}

/// The badges of a manifest as markdown.
pub fn render_badges(badges: Badges) -> (out: Vec<String>)
    ensures
        texts(out@) == badge_texts(badges),
{
    let mut out: Vec<String> = Vec::new();
    proof {
        assert(texts(out@) =~= Seq::<Seq<char>>::empty());
    }
    push_some(
        &mut out,
        match badges.appveyor {
            Some(b) => Some(appveyor(b)),
            None => None,
        },
    );
    proof {
        assert(texts(out@) =~= rendered(badges.appveyor, |b: Badge| appveyor_text(b)));
    }
    push_some(
        &mut out,
        match badges.circle_ci {
            Some(b) => Some(circle_ci(b)),
            None => None,
        },
    );
    push_some(
        &mut out,
        match badges.gitlab {
            Some(b) => Some(gitlab(b)),
            None => None,
        },
    );
    push_some(
        &mut out,
        match badges.travis_ci {
            Some(b) => Some(travis_ci(b)),
            None => None,
        },
    );
    push_some(
        &mut out,
        match badges.codecov {
            Some(b) => Some(codecov(b)),
            None => None,
        },
    );
    push_some(
        &mut out,
        match badges.coveralls {
            Some(b) => Some(coveralls(b)),
            None => None,
        },
    );
    push_some(
        &mut out,
        match badges.is_it_maintained_issue_resolution {
            Some(b) => Some(is_it_maintained_issue_resolution(b)),
            None => None,
        },
    );
    push_some(
        &mut out,
        match badges.is_it_maintained_open_issues {
            Some(b) => Some(is_it_maintained_open_issues(b)),
            None => None,
        },
    );
    push_some(&mut out, maintenance(badges.maintenance));
    out
}

/// The targets that the product tables with a path declare.
pub fn collect_targets(products: &Vec<Product>) -> (out: Vec<ManifestLib>)
    ensures
        targets_of(out@) == product_targets(products@),
{
    let n: usize = products.len();
    let mut out: Vec<ManifestLib> = Vec::new();
    let mut i: usize = 0;
    proof {
        assert(targets_of(out@) =~= product_targets(products@.subrange(0, 0)));
    }
    while i < n
        invariant
            i <= n,
            n == products@.len(),
            targets_of(out@) == product_targets(products@.subrange(0, i as int)),
        decreases n - i,
    {
        let ghost before = out@;
        proof {
            assert(products@.subrange(0, i + 1).drop_last() =~= products@.subrange(0, i as int));
        }
        match ManifestLib::from_cargo_toml(Some(&products[i])) {
            Some(lib) => {
                out.push(lib);
                proof {
                    assert(targets_of(out@) =~= targets_of(before).push(target_of(lib)));
                }
            },
            None => {},
        }
        i += 1;
    }
    proof {
        assert(products@.subrange(0, n as int) =~= products@);
    }
    out
}

impl Manifest {
    /// Picks from a manifest as read what the README needs. The manifest is
    /// refused where it has no `[package]` table, or where that table leaves
    /// the license or the version to a workspace.
    pub fn try_new(manifest: RawManifest) -> (r: Result<Manifest, ManifestError>)
        ensures
            match r {
                Err(e) => match manifest.package {
                    None => e == ManifestError::MissingPackage,
                    Some(p) => if p.license == Some(Setting::Inherited) {
                        e == ManifestError::InheritedLicense
                    } else {
                        p.version == Setting::Inherited && e == ManifestError::InheritedVersion
                    },
                },
                Ok(m) => {
                    &&& manifest.package matches Some(p) && {
                        &&& m.name@ == p.name@
                        &&& match p.license {
                            Some(Setting::Given(l)) => text_of(m.license) == Some(l@),
                            Some(Setting::Inherited) => false,
                            None => m.license is None,
                        }
                        &&& p.version matches Setting::Given(v) && m.version@ == v@
                    }
                    &&& match m.lib {
                        Some(lib) => product_target(manifest.lib) == Some(target_of(lib)),
                        None => product_target(manifest.lib) is None,
                    }
                    &&& targets_of(m.bin@) == product_targets(manifest.bin@)
                    &&& texts(m.badges@) == badge_texts(manifest.badges)
                },
            },
    {
        let package = match manifest.package {
            Some(p) => p,
            None => {
                return Err(ManifestError::MissingPackage);
            },
        };
        let license = match package.license {
            Some(Setting::Given(l)) => Some(l),
            Some(Setting::Inherited) => {
                return Err(ManifestError::InheritedLicense);
            },
            None => None,
        };
        let lib = match &manifest.lib {
            Some(p) => ManifestLib::from_cargo_toml(Some(p)),
            None => None,
        };
        let bin = collect_targets(&manifest.bin);
        let badges = render_badges(manifest.badges);
        let version = match package.version {
            Setting::Given(v) => v,
            Setting::Inherited => {
                return Err(ManifestError::InheritedVersion);
            },
        };
        Ok(Manifest { name: package.name, license, lib, bin, badges, version })
    }
}

/// A package manifest reduced to the package and the targets it declares.
#[derive(Clone, Debug)]
pub struct Cargo {
    pub package: CargoPackage,
    pub lib: Option<CargoLib>,
    pub bin: Option<Vec<CargoLib>>,
}

/// The name and license of a package.
#[derive(Clone, Debug)]
pub struct CargoPackage {
    pub name: String,
    pub license: Option<String>,
}

/// A target of a package, with the path of its root file if one is given.
#[derive(Clone, Debug)]
pub struct CargoLib {
    pub path: Option<String>,
}

impl CargoLib {
    /// The path of the target's root file: the one given, else `src/lib.rs`.
    pub fn path_or_default(&self) -> (r: &str)
        ensures
            r@ == (match self.path {
                Some(p) => p@,
                None => DEFAULT_LIB@,
            }),
    {
        match &self.path {
            Some(p) => p.as_str(),
            None => DEFAULT_LIB,
        }
    }
}

/// A target as a manifest table gives it: its path, and its `doc` switch if
/// it is set.
#[derive(Debug)]
pub struct Target {
    pub path: String,
    pub doc: Option<bool>,
}

/// One table of `[badges]`: the service's name and its attributes, each a
/// name and a value.
#[derive(Debug)]
pub struct BadgeTable {
    pub name: String,
    pub attrs: Vec<(String, String)>,
}

/// A manifest with its badges as tables of attributes.
#[derive(Debug)]
pub struct CrateManifest {
    pub package: CargoPackage,
    pub lib: Option<Target>,
    pub bin: Option<Vec<Target>>,
    pub badges: Vec<BadgeTable>,
}

/// What a README needs to know of a crate, with each target's path and its
/// `doc` switch as the manifest has it.
#[derive(Debug)]
pub struct CrateInfo {
    pub name: String,
    pub license: Option<String>,
    pub lib: Option<(String, Option<bool>)>,
    pub bin: Vec<(String, Option<bool>)>,
    pub badges: Vec<String>,
}

/// The value of the first attribute of `attrs` from index `i` on that is
/// named `name`.
pub open spec fn attr_from(attrs: Seq<(String, String)>, name: Seq<char>, i: int) -> Option<
    Seq<char>,
>
    decreases attrs.len() - i,
{
    if i < 0 || i >= attrs.len() {
        None
    } else if attrs[i].0@ == name {
        Some(attrs[i].1@)
    } else {
        attr_from(attrs, name, i + 1)
    }
}

/// The value of the attribute `name`, if the table has it.
pub open spec fn attr(attrs: Seq<(String, String)>, name: Seq<char>) -> Option<Seq<char>> {
    attr_from(attrs, name, 0)
}

/// `value`, or `default` where there is none.
pub open spec fn or_default(value: Option<Seq<char>>, default: Seq<char>) -> Seq<char> {
    match value {
        Some(v) => v,
        None => default,
    }
}

/// Whether a badge table can be rendered: it is AppVeyor's and names a
/// repository.
pub open spec fn is_supported(badge: BadgeTable) -> bool {
    badge.name@ == "appveyor"@ && attr(badge.attrs@, "repository"@) is Some
}

/// The markdown for a badge table that can be rendered; the branch defaults
/// to `master` and the service to `github`.
pub open spec fn badge_table_text(badge: BadgeTable) -> Seq<char> {
    let repo = or_default(attr(badge.attrs@, "repository"@), Seq::empty());
    let branch = or_default(attr(badge.attrs@, "branch"@), "master"@);
    let service = or_default(attr(badge.attrs@, "service"@), "github"@);
    "[![Build status](https://ci.appveyor.com/api/projects/status/"@ + service + "/"@ + repo
        + "?branch="@ + branch + "&svg=true)](https://ci.appveyor.com/project/"@ + repo
        + "/branch/"@ + branch + ")"@
}

/// The value of the attribute `name`, if the table has it.
pub fn get_attr(attrs: &Vec<(String, String)>, name: &str) -> (r: Option<String>)
    ensures
        text_of(r) == attr(attrs@, name@),
{
    let n: usize = attrs.len();
    let wanted = String::from_str(name);
    let mut i: usize = 0;
    while i < n
        invariant
            i <= n,
            n == attrs@.len(),
            wanted@ == name@,
            attr(attrs@, name@) == attr_from(attrs@, name@, i as int),
        decreases n - i,
    {
        if attrs[i].0 == wanted {
            return Some(attrs[i].1.clone());
        }
        i += 1;
    }
    None
}

/// Whether a badge table can be rendered.
pub fn can_render(badge: &BadgeTable) -> (r: bool)
    ensures
        r == is_supported(*badge),
{
    badge.name == String::from_str("appveyor") && get_attr(&badge.attrs, "repository").is_some()
}

/// The markdown for one badge table. Only AppVeyor's badge is known, and it
/// needs a repository.
pub fn process_badge(badge: &BadgeTable) -> (r: String)
    requires
        is_supported(*badge),
    ensures
        r@ == badge_table_text(*badge),
{
    let repo = match get_attr(&badge.attrs, "repository") {
        Some(repo) => repo,
        None => String::new(),
    };
    let branch = match get_attr(&badge.attrs, "branch") {
        Some(branch) => branch,
        None => String::from_str("master"),
    };
    let service = match get_attr(&badge.attrs, "service") {
        Some(service) => service,
        None => String::from_str("github"),
    };
    String::from_str("[![Build status](https://ci.appveyor.com/api/projects/status/").concat(
        service.as_str(),
    ).concat("/").concat(repo.as_str()).concat("?branch=").concat(branch.as_str()).concat(
        "&svg=true)](https://ci.appveyor.com/project/",
    ).concat(repo.as_str()).concat("/branch/").concat(branch.as_str()).concat(")")
}

/// The markdown for each badge table, in order.
pub fn process_badges(badges: &Vec<BadgeTable>) -> (out: Vec<String>)
    requires
        forall|i: int| 0 <= i < badges@.len() ==> is_supported(#[trigger] badges@[i]),
    ensures
        texts(out@) == Seq::new(badges@.len(), |i: int| badge_table_text(badges@[i])),
{
    let n: usize = badges.len();
    let mut out: Vec<String> = Vec::new();
    let mut i: usize = 0;
    while i < n
        invariant
            i <= n,
            n == badges@.len(),
            forall|k: int| 0 <= k < badges@.len() ==> is_supported(#[trigger] badges@[k]),
            texts(out@) =~= Seq::new(i as nat, |k: int| badge_table_text(badges@[k])),
        decreases n - i,
    {
        let ghost before = out@;
        out.push(process_badge(&badges[i]));
        proof {
            assert(texts(out@) =~= texts(before).push(badge_table_text(badges@[i as int])));
            assert(Seq::new((i + 1) as nat, |k: int| badge_table_text(badges@[k])) =~= Seq::new(
                i as nat,
                |k: int| badge_table_text(badges@[k]),
            ).push(badge_table_text(badges@[i as int])));
        }
        i += 1;
    }
    out
}

/// A target as the contracts see it: its path and its `doc` switch.
pub open spec fn pair_of(target: (String, Option<bool>)) -> (Seq<char>, Option<bool>) {
    (target.0@, target.1)
}

impl CrateInfo {
    /// Picks from a manifest what the README needs, with the badges
    /// rendered. Every badge table has to be one that can be rendered.
    pub fn new(manifest: CrateManifest) -> (r: CrateInfo)
        requires
            forall|i: int|
                0 <= i < manifest.badges@.len() ==> is_supported(#[trigger] manifest.badges@[i]),
        ensures
            r.name@ == manifest.package.name@,
            text_of(r.license) == text_of(manifest.package.license),
            match r.lib {
                Some(lib) => manifest.lib matches Some(t) && pair_of(lib) == (t.path@, t.doc),
                None => manifest.lib is None,
            },
            match manifest.bin {
                Some(bins) => r.bin@.len() == bins@.len() && forall|i: int|
                    0 <= i < bins@.len() ==> pair_of(#[trigger] r.bin@[i]) == (
                        bins@[i].path@,
                        bins@[i].doc,
                    ),
                None => r.bin@.len() == 0,
            },
            texts(r.badges@) == Seq::new(
                manifest.badges@.len(),
                |i: int| badge_table_text(manifest.badges@[i]),
            ),
    {
        let badges = process_badges(&manifest.badges);
        let lib = match manifest.lib {
            Some(t) => Some((t.path, t.doc)),
            None => None,
        };
        let mut bin: Vec<(String, Option<bool>)> = Vec::new();
        match &manifest.bin {
            Some(bins) => {
                let n: usize = bins.len();
                let mut i: usize = 0;
                while i < n
                    invariant
                        i <= n,
                        n == bins@.len(),
                        bin@.len() == i,
                        forall|k: int|
                            0 <= k < i ==> pair_of(#[trigger] bin@[k]) == (
                                bins@[k].path@,
                                bins@[k].doc,
                            ),
                    decreases n - i,
                {
                    bin.push((bins[i].path.clone(), bins[i].doc));
                    i += 1;
                }
            },
            None => {},
        }
        CrateInfo {
            name: manifest.package.name,
            license: manifest.package.license,
            lib,
            bin,
            badges,
        }
    }
}

} // verus!
