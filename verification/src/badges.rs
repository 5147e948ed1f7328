//! Badges of a package, rendered as markdown.
//!
//! Each function takes what the manifest says of one badge and returns the
//! markdown image link for it.

use vstd::prelude::*;
use vstd::string::*;
use vstd::utf8::encode_utf8;

verus! {

/// The service that hosts a repository, where the manifest names none.
pub const BADGE_SERVICE_DEFAULT: &'static str = "github";

/// What the manifest says of one badge.
#[derive(Debug, Clone)]
pub struct Badge {
    pub repository: String,
    pub branch: String,
    pub service: Option<String>,
}

/// How far a package is maintained, as its manifest declares it.
#[derive(Clone, Copy, Debug, PartialEq, Eq, Structural)]
pub enum MaintenanceStatus {
    NotDeclared,
    ActivelyDeveloped,
    PassivelyMaintained,
    AsIs,
    Experimental,
    LookingForMaintainer,
    Deprecated,
}

/// Whether `b` is an ASCII letter or digit.
pub open spec fn is_alphanumeric(b: u8) -> bool {
    (0x30 <= b <= 0x39) || (0x41 <= b <= 0x5A) || (0x61 <= b <= 0x7A)
}

/// The upper-case hexadecimal digit for `n`, which is below 16.
pub open spec fn hex_digit(n: u8) -> char {
    if n < 10 {
        (0x30 + n) as u8 as char
    } else {
        (0x37 + n) as u8 as char
    }
}

/// One byte, percent-encoded: itself where it is an ASCII letter or digit,
/// else `%` and its two hexadecimal digits.
pub open spec fn encoded_byte(b: u8) -> Seq<char> {
    if is_alphanumeric(b) {
        seq![b as char]
    } else {
        seq!['%', hex_digit(b / 16), hex_digit(b % 16)]
    }
}

/// The bytes of `bytes`, each percent-encoded.
pub open spec fn encoded_bytes(bytes: Seq<u8>) -> Seq<char>
    decreases bytes.len(),
{
    if bytes.len() == 0 {
        Seq::empty()
    } else {
        encoded_bytes(bytes.drop_last()) + encoded_byte(bytes.last())
    }
}

/// `s` in UTF-8, with every byte but ASCII letters and digits
/// percent-encoded.
pub open spec fn percent_encoded(s: Seq<char>) -> Seq<char> {
    encoded_bytes(encode_utf8(s))
}

/// Calls `percent_encoding::utf8_percent_encode` with the set
/// `NON_ALPHANUMERIC` and collects what it yields. Claimed, from the crate's
/// source: each byte of the input's UTF-8 form that is an ASCII letter or
/// digit stands for itself, and every other byte becomes `%` and its two
/// upper-case hexadecimal digits.
#[verifier::external_body]
pub(crate) fn percent_encode(input: &str) -> (r: String)
    ensures
        r@ == percent_encoded(input@),
{
    percent_encoding::utf8_percent_encode(input, percent_encoding::NON_ALPHANUMERIC).to_string()
}

/// The short name of a hosting service in badge URLs.
pub open spec fn short_name(service: Seq<char>) -> Seq<char> {
    if service == "bitbucket"@ {
        "bb"@
    } else if service == "gitlab"@ {
        "gl"@
    } else {
        "gh"@
    }
}

/// The service of a badge: the one it names, else the default.
pub open spec fn service_of(badge: Badge) -> Seq<char> {
    match badge.service {
        Some(s) => s@,
        None => BADGE_SERVICE_DEFAULT@,
    }
}

/// The short name of a hosting service in badge URLs: `bb` for bitbucket,
/// `gl` for gitlab, `gh` for github and for any other.
pub fn badge_service_short_name(service: &str) -> (r: &'static str)
    ensures
        r@ == short_name(service@),
{
    let service = String::from_str(service);
    if service == String::from_str("bitbucket") {
        "bb"
    } else if service == String::from_str("gitlab") {
        "gl"
    } else {
        "gh"
    }
}

fn service_name(badge: &Badge) -> (r: String)
    ensures
        r@ == service_of(*badge),
{
    match &badge.service {
        Some(s) => s.clone(),
        None => String::from_str(BADGE_SERVICE_DEFAULT),
    }
}

pub open spec fn appveyor_text(badge: Badge) -> Seq<char> {
    "[![Build Status](https://ci.appveyor.com/api/projects/status/"@ + service_of(badge) + "/"@
        + badge.repository@ + "?branch="@ + badge.branch@
        + "&svg=true)](https://ci.appveyor.com/project/"@ + badge.repository@ + "/branch/"@
        + badge.branch@ + ")"@
}

/// The build badge of AppVeyor.
pub fn appveyor(badge: Badge) -> (r: String)
    ensures
        r@ == appveyor_text(badge),
{
    let service = service_name(&badge);
    String::from_str("[![Build Status](https://ci.appveyor.com/api/projects/status/").concat(
        service.as_str(),
    ).concat("/").concat(badge.repository.as_str()).concat("?branch=").concat(
        badge.branch.as_str(),
    ).concat("&svg=true)](https://ci.appveyor.com/project/").concat(
        badge.repository.as_str(),
    ).concat("/branch/").concat(badge.branch.as_str()).concat(")")
}

pub open spec fn circle_ci_text(badge: Badge) -> Seq<char> {
    "[![Build Status](https://circleci.com/"@ + short_name(service_of(badge)) + "/"@
        + badge.repository@ + "/tree/"@ + percent_encoded(badge.branch@)
        + ".svg?style=shield)](https://circleci.com/"@ + short_name(service_of(badge)) + "/"@
        + badge.repository@ + "/tree/"@ + percent_encoded(badge.branch@) + ")"@
}

/// The build badge of CircleCI.
pub fn circle_ci(badge: Badge) -> (r: String)
    ensures
        r@ == circle_ci_text(badge),
{
    let name = service_name(&badge);
    let service = badge_service_short_name(name.as_str());
    let branch = percent_encode(badge.branch.as_str());
    String::from_str("[![Build Status](https://circleci.com/").concat(service).concat("/").concat(
        badge.repository.as_str(),
    ).concat("/tree/").concat(branch.as_str()).concat(
        ".svg?style=shield)](https://circleci.com/",
    ).concat(service).concat("/").concat(badge.repository.as_str()).concat("/tree/").concat(
        branch.as_str(),
    ).concat(")")
}

pub open spec fn gitlab_text(badge: Badge) -> Seq<char> {
    "[![Build Status](https://gitlab.com/"@ + badge.repository@ + "/badges/"@ + percent_encoded(
        badge.branch@,
    ) + "/pipeline.svg)](https://gitlab.com/"@ + badge.repository@ + "/commits/master)"@
}

/// The pipeline badge of GitLab.
pub fn gitlab(badge: Badge) -> (r: String)
    ensures
        r@ == gitlab_text(badge),
{
    let branch = percent_encode(badge.branch.as_str());
    String::from_str("[![Build Status](https://gitlab.com/").concat(
        badge.repository.as_str(),
    ).concat("/badges/").concat(branch.as_str()).concat(
        "/pipeline.svg)](https://gitlab.com/",
    ).concat(badge.repository.as_str()).concat("/commits/master)")
}

pub open spec fn travis_ci_text(badge: Badge) -> Seq<char> {
    "[![Build Status](https://travis-ci.org/"@ + badge.repository@ + ".svg?branch="@
        + percent_encoded(badge.branch@) + ")](https://travis-ci.org/"@ + badge.repository@ + ")"@
}

/// The build badge of Travis CI.
pub fn travis_ci(badge: Badge) -> (r: String)
    ensures
        r@ == travis_ci_text(badge),
{
    let branch = percent_encode(badge.branch.as_str());
    String::from_str("[![Build Status](https://travis-ci.org/").concat(
        badge.repository.as_str(),
    ).concat(".svg?branch=").concat(branch.as_str()).concat(")](https://travis-ci.org/").concat(
        badge.repository.as_str(),
    ).concat(")")
}

pub open spec fn github_text(badge: Badge) -> Seq<char> {
    "[![Workflow Status](https://github.com/"@ + badge.repository@ + "/workflows/"@
        + percent_encoded("main"@) + "/badge.svg)](https://github.com/"@ + badge.repository@
        + "/actions?query=workflow%3A%22"@ + percent_encoded("main"@) + "%22)"@
}

/// The workflow badge of GitHub, for the workflow `main`.
pub fn github(badge: Badge) -> (r: String)
    ensures
        r@ == github_text(badge),
{
    let workflow = percent_encode("main");
    String::from_str("[![Workflow Status](https://github.com/").concat(
        badge.repository.as_str(),
    ).concat("/workflows/").concat(workflow.as_str()).concat(
        "/badge.svg)](https://github.com/",
    ).concat(badge.repository.as_str()).concat("/actions?query=workflow%3A%22").concat(
        workflow.as_str(),
    ).concat("%22)")
}

pub open spec fn codecov_text(badge: Badge) -> Seq<char> {
    "[![Coverage Status](https://codecov.io/"@ + short_name(service_of(badge)) + "/"@
        + badge.repository@ + "/branch/"@ + percent_encoded(badge.branch@)
        + "/graph/badge.svg)](https://codecov.io/"@ + short_name(service_of(badge)) + "/"@
        + badge.repository@ + ")"@
}

/// The coverage badge of Codecov.
pub fn codecov(badge: Badge) -> (r: String)
    ensures
        r@ == codecov_text(badge),
{
    let name = service_name(&badge);
    let service = badge_service_short_name(name.as_str());
    let branch = percent_encode(badge.branch.as_str());
    String::from_str("[![Coverage Status](https://codecov.io/").concat(service).concat("/").concat(
        badge.repository.as_str(),
    ).concat("/branch/").concat(branch.as_str()).concat(
        "/graph/badge.svg)](https://codecov.io/",
    ).concat(service).concat("/").concat(badge.repository.as_str()).concat(")")
}

pub open spec fn coveralls_text(badge: Badge) -> Seq<char> {
    "[![Coverage Status](https://coveralls.io/repos/"@ + service_of(badge) + "/"@
        + badge.repository@ + "/badge.svg?branch=branch)](https://coveralls.io/"@ + service_of(
        badge,
    ) + "/"@ + badge.repository@ + "?branch="@ + percent_encoded(badge.branch@) + ")"@
}

/// The coverage badge of Coveralls.
pub fn coveralls(badge: Badge) -> (r: String)
    ensures
        r@ == coveralls_text(badge),
{
    let service = service_name(&badge);
    let branch = percent_encode(badge.branch.as_str());
    String::from_str("[![Coverage Status](https://coveralls.io/repos/").concat(
        service.as_str(),
    ).concat("/").concat(badge.repository.as_str()).concat(
        "/badge.svg?branch=branch)](https://coveralls.io/",
    ).concat(service.as_str()).concat("/").concat(badge.repository.as_str()).concat(
        "?branch=",
    ).concat(branch.as_str()).concat(")")
}

pub open spec fn issue_resolution_text(badge: Badge) -> Seq<char> {
    "[![Average time to resolve an issue](https://isitmaintained.com/badge/resolution/"@
        + badge.repository@ + ".svg)](https://isitmaintained.com/project/"@ + badge.repository@
        + " \"Average time to resolve an issue\")"@
}

/// The badge of isitmaintained.com for the time it takes to resolve an issue.
pub fn is_it_maintained_issue_resolution(badge: Badge) -> (r: String)
    ensures
        r@ == issue_resolution_text(badge),
{
    String::from_str(
        "[![Average time to resolve an issue](https://isitmaintained.com/badge/resolution/",
    ).concat(badge.repository.as_str()).concat(
        ".svg)](https://isitmaintained.com/project/",
    ).concat(badge.repository.as_str()).concat(" \"Average time to resolve an issue\")")
}

pub open spec fn open_issues_text(badge: Badge) -> Seq<char> {
    "[![Percentage of issues still open](https://isitmaintained.com/badge/open/"@
        + badge.repository@ + ".svg)](https://isitmaintained.com/project/"@ + badge.repository@
        + " \"Percentage of issues still open\")"@
}

/// The badge of isitmaintained.com for the share of issues that are open.
pub fn is_it_maintained_open_issues(badge: Badge) -> (r: String)
    ensures
        r@ == open_issues_text(badge),
{
    String::from_str(
        "[![Percentage of issues still open](https://isitmaintained.com/badge/open/",
    ).concat(badge.repository.as_str()).concat(
        ".svg)](https://isitmaintained.com/project/",
    ).concat(badge.repository.as_str()).concat(" \"Percentage of issues still open\")")
}

/// The label and colour of a maintenance badge, where the status has one.
pub open spec fn maintenance_label(status: MaintenanceStatus) -> Option<Seq<char>> {
    match status {
        MaintenanceStatus::ActivelyDeveloped => Some("activly--developed-brightgreen"@),
        MaintenanceStatus::PassivelyMaintained => Some("passively--maintained-yellowgreen"@),
        MaintenanceStatus::AsIs => Some("as--is-yellow"@),
        MaintenanceStatus::Experimental => Some("experimental-blue"@),
        MaintenanceStatus::LookingForMaintainer => Some("looking--for--maintainer-darkblue"@),
        MaintenanceStatus::Deprecated => Some("deprecated-red"@),
        MaintenanceStatus::NotDeclared => None,
    }
}

pub open spec fn maintenance_text(status: MaintenanceStatus) -> Option<Seq<char>> {
    match maintenance_label(status) {
        Some(label) => Some(
            "![Maintenance](https://img.shields.io/badge/maintenance-"@ + label + ".svg)"@,
        ),
        None => None,
    }
}

/// The maintenance badge; none where no status is declared.
pub fn maintenance(status: MaintenanceStatus) -> (r: Option<String>)
    ensures
        crate::text::text_of(r) == maintenance_text(status),
{
    let label: &str = match status {
        MaintenanceStatus::ActivelyDeveloped => "activly--developed-brightgreen",
        MaintenanceStatus::PassivelyMaintained => "passively--maintained-yellowgreen",
        MaintenanceStatus::AsIs => "as--is-yellow",
        MaintenanceStatus::Experimental => "experimental-blue",
        MaintenanceStatus::LookingForMaintainer => "looking--for--maintainer-darkblue",
        MaintenanceStatus::Deprecated => "deprecated-red",
        MaintenanceStatus::NotDeclared => {
            return None;
        },
    };
    Some(
        String::from_str("![Maintenance](https://img.shields.io/badge/maintenance-").concat(
            label,
        ).concat(".svg)"),
    )
}

} // verus!
