use cargo_readme::manifest::Manifest;
use cargo_readme::template::{
    append_license, fold_badges, prepend_badges, prepend_title, process_template, render,
    TemplateError,
};

const CRATE_NAME: &str = "my_crate";
const BADGE: &str = "travis-ci";
const LICENSE: &str = "MPL";

const TEMPLATE_NO_CRATE_NO_LICENSE: &str = "{{readme}}";
const TEMPLATE_CRATE_NO_LICENSE: &str = "# {{crate}}\n\n{{readme}}";
const TEMPLATE_NO_CRATE_LICENSE: &str = "{{readme}}\n\nLicense: {{license}}";
const TEMPLATE_CRATE_LICENSE: &str = "# {{crate}}\n\n{{readme}}\n\nLicense: {{license}}";

fn run(template: &str, with_title: bool, with_badges: bool, with_license: bool) -> Result<String, TemplateError> {
    let title = if with_title { Some(CRATE_NAME) } else { None };
    let badge_vec = vec![BADGE.to_owned()];
    let badges = if with_badges { Some(&badge_vec) } else { None };
    let license = if with_license { Some(LICENSE) } else { None };
    process_template(template.to_owned(), "# documentation".to_owned(), title, badges, license)
}

#[test]
fn template_with_every_token_is_filled() {
    assert_eq!(
        run(TEMPLATE_CRATE_LICENSE, true, false, true).unwrap(),
        "# my_crate\n\n# documentation\n\nLicense: MPL"
    );
    assert_eq!(run(TEMPLATE_CRATE_NO_LICENSE, true, false, false).unwrap(), "# my_crate\n\n# documentation");
    assert_eq!(run(TEMPLATE_NO_CRATE_LICENSE, false, false, true).unwrap(), "# documentation\n\nLicense: MPL");
    assert_eq!(run(TEMPLATE_NO_CRATE_NO_LICENSE, false, false, false).unwrap(), "# documentation");
}

#[test]
fn missing_token_leaves_the_default_in_place() {
    assert_eq!(
        run(TEMPLATE_NO_CRATE_NO_LICENSE, true, false, true).unwrap(),
        "# my_crate\n\n# documentation\n\nLicense: MPL"
    );
    assert_eq!(run(TEMPLATE_NO_CRATE_NO_LICENSE, true, false, false).unwrap(), "# my_crate\n\n# documentation");
    assert_eq!(
        run(TEMPLATE_CRATE_NO_LICENSE, true, false, true).unwrap(),
        "# my_crate\n\n# documentation\n\nLicense: MPL"
    );
    assert_eq!(
        run(TEMPLATE_NO_CRATE_LICENSE, true, true, true).unwrap(),
        "# my_crate\n\n\ntravis-ci\n\n# documentation\n\nLicense: MPL"
    );
}

#[test]
fn token_without_value_is_an_error() {
    let no_title = run(TEMPLATE_CRATE_NO_LICENSE, false, false, true).unwrap_err();
    assert_eq!(no_title, TemplateError::NoTitle);
    assert_eq!(no_title.message(), "`{{crate}}` was found in template but no crate name was provided");
    let no_license = run(TEMPLATE_NO_CRATE_LICENSE, true, false, false).unwrap_err();
    assert_eq!(no_license, TemplateError::NoLicense);
    assert_eq!(no_license.message(), "`{{license}}` was found in template but no license was provided");
    assert_eq!(run(TEMPLATE_CRATE_LICENSE, false, false, true).unwrap_err(), TemplateError::NoTitle);
    assert_eq!(run(TEMPLATE_CRATE_LICENSE, false, false, false).unwrap_err(), TemplateError::NoLicense);
    let no_badges = run("{{badges}}\n{{readme}}", true, false, true).unwrap_err();
    assert_eq!(no_badges, TemplateError::NoBadges);
    assert_eq!(no_badges.message(), "`{{badges}}` was found in template but no badges were provided");
}

#[test]
fn template_needs_the_readme_token() {
    let err = run("# {{crate}}", true, true, true).unwrap_err();
    assert_eq!(err, TemplateError::MissingReadme);
    assert_eq!(err.message(), "Missing `{{readme}}` in template");
    assert_eq!(run("", false, false, false).unwrap_err(), TemplateError::MissingReadme);
}

#[test]
fn template_loses_only_its_final_line_breaks() {
    assert_eq!(run("\n{{readme}} \n\n\n", false, false, false).unwrap(), "\n# documentation ");
    assert_eq!(run("{{readme}}{{readme}}", false, false, false).unwrap(), "# documentation# documentation");
}

#[test]
fn badges_are_folded_each_after_a_line_break() {
    assert_eq!(fold_badges(&vec![]), "");
    assert_eq!(fold_badges(&vec!["a".to_owned()]), "\na");
    assert_eq!(fold_badges(&vec!["a".to_owned(), "b".to_owned()]), "\na\nb");
    assert_eq!(run("{{badges}}\n{{readme}}", false, true, false).unwrap(), "\ntravis-ci\n# documentation");
}

#[test]
fn title_badges_and_license_frame_the_text() {
    assert_eq!(prepend_title("docs".to_owned(), "name"), "# name\n\ndocs");
    assert_eq!(prepend_title("".to_owned(), "name"), "# name");
    assert_eq!(prepend_title(" \n".to_owned(), "name"), "# name");
    assert_eq!(append_license("docs".to_owned(), "MIT"), "docs\n\nLicense: MIT");
    assert_eq!(append_license("".to_owned(), "MIT"), "License: MIT");
    assert_eq!(prepend_badges("docs".to_owned(), &vec!["b1".to_owned(), "b2".to_owned()]), "\nb1\nb2\n\ndocs");
    assert_eq!(prepend_badges("docs".to_owned(), &vec![]), "docs");
}

fn manifest(license: Option<&str>, badges: &[&str]) -> Manifest {
    Manifest {
        name: "readme-test".to_owned(),
        license: license.map(|l| l.to_owned()),
        lib: None,
        bin: Vec::new(),
        badges: badges.iter().map(|b| b.to_string()).collect(),
        version: "0.1.0".to_owned(),
    }
}

#[test]
fn render_without_template() {
    let cargo = manifest(Some("MIT"), &["badge"]);
    assert_eq!(
        render(None, "docs".to_owned(), &cargo, true, true, true).unwrap(),
        "# readme-test\n\n\nbadge\n\ndocs\n\nLicense: MIT"
    );
    assert_eq!(render(None, "docs".to_owned(), &cargo, false, false, false).unwrap(), "docs");
    assert_eq!(
        render(None, "".to_owned(), &manifest(Some("MIT"), &[]), true, false, true).unwrap(),
        "# readme-test\n\nLicense: MIT"
    );
    assert_eq!(
        render(None, "docs".to_owned(), &manifest(None, &[]), true, true, false).unwrap(),
        "# readme-test\n\ndocs"
    );
}

#[test]
fn render_with_template() {
    let cargo = manifest(Some("MIT"), &["badge"]);
    let tpl = |t: &str| Some(t.to_owned());
    assert_eq!(
        render(tpl("{{crate}}:{{badges}}:{{license}}:{{readme}}\n"), "docs".to_owned(), &cargo, true, true, true)
            .unwrap(),
        "readme-test:\nbadge:MIT:docs"
    );
    let unwanted_license = render(tpl("{{readme}}{{license}}"), "docs".to_owned(), &cargo, true, true, false);
    assert_eq!(unwanted_license, Err(TemplateError::LicenseNotWanted));
    assert_eq!(
        TemplateError::LicenseNotWanted.message(),
        "`{{license}}` was found in template but license should not be rendered"
    );
    let unwanted_badges = render(tpl("{{readme}}{{badges}}"), "docs".to_owned(), &cargo, true, false, true);
    assert_eq!(unwanted_badges, Err(TemplateError::BadgesNotWanted));
    assert_eq!(
        TemplateError::BadgesNotWanted.message(),
        "`{{badges}}` was found in template but badges should not be rendered"
    );
    let unwanted_title = render(tpl("{{readme}}{{crate}}"), "docs".to_owned(), &cargo, false, true, true);
    assert_eq!(unwanted_title, Err(TemplateError::TitleNotWanted));
    assert_eq!(
        TemplateError::TitleNotWanted.message(),
        "`{{crate}}` was found in template but title should not be rendered"
    );
    let no_license =
        render(tpl("{{readme}}{{license}}"), "docs".to_owned(), &manifest(None, &[]), true, true, true);
    assert_eq!(no_license, Err(TemplateError::NoLicense));
    assert_eq!(
        render(tpl("{{readme}}"), "docs".to_owned(), &cargo, false, false, false).unwrap(),
        "docs"
    );
}
