//! Rendering the README, alone or through a template.
//!
//! A template is plain text with up to four tokens: `{{readme}}`, which it
//! must hold, and `{{crate}}`, `{{badges}}` and `{{license}}`. This is not a
//! template engine: each token is replaced by its text, and that is all.

use vstd::prelude::*;
use vstd::string::*;
use crate::manifest::Manifest;
use crate::text::{
    concat2, concat3, contains, contains_str, is_blank, is_blank_str, replace_all, replaced,
    strip_end, stripped_len, text_of, texts,
};

verus! {

/// Why a template could not be rendered.
#[derive(Clone, Copy, Debug, PartialEq, Eq, Structural)]
pub enum TemplateError {
    /// The template holds no `{{readme}}`.
    MissingReadme,
    /// The template holds `{{license}}`, and the license is switched off.
    LicenseNotWanted,
    /// The template holds `{{badges}}`, and the badges are switched off.
    BadgesNotWanted,
    /// The template holds `{{crate}}`, and the title is switched off.
    TitleNotWanted,
    /// The template holds `{{badges}}`, and no badges were given.
    NoBadges,
    /// The template holds `{{license}}`, and no license was given.
    NoLicense,
    /// The template holds `{{crate}}`, and no crate name was given.
    NoTitle,
}

impl TemplateError {
    /// The text of the message for each error.
    pub open spec fn message_spec(&self) -> Seq<char> {
        match self {
            TemplateError::MissingReadme => "Missing `{{readme}}` in template"@,
            TemplateError::LicenseNotWanted =>
                "`{{license}}` was found in template but license should not be rendered"@,
            TemplateError::BadgesNotWanted =>
                "`{{badges}}` was found in template but badges should not be rendered"@,
            TemplateError::TitleNotWanted =>
                "`{{crate}}` was found in template but title should not be rendered"@,
            TemplateError::NoBadges =>
                "`{{badges}}` was found in template but no badges were provided"@,
            TemplateError::NoLicense =>
                "`{{license}}` was found in template but no license was provided"@,
            TemplateError::NoTitle =>
                "`{{crate}}` was found in template but no crate name was provided"@,
        }
    }

    /// A one-line description of the error.
    pub fn message(&self) -> (r: String)
        ensures
            r@ == self.message_spec(),
    {
        match self {
            TemplateError::MissingReadme => String::from_str("Missing `{{readme}}` in template"),
            TemplateError::LicenseNotWanted => String::from_str(
                "`{{license}}` was found in template but license should not be rendered",
            ),
            TemplateError::BadgesNotWanted => String::from_str(
                "`{{badges}}` was found in template but badges should not be rendered",
            ),
            TemplateError::TitleNotWanted => String::from_str(
                "`{{crate}}` was found in template but title should not be rendered",
            ),
            TemplateError::NoBadges => String::from_str(
                "`{{badges}}` was found in template but no badges were provided",
            ),
            TemplateError::NoLicense => String::from_str(
                "`{{license}}` was found in template but no license was provided",
            ),
            TemplateError::NoTitle => String::from_str(
                "`{{crate}}` was found in template but no crate name was provided",
            ),
        }
    }
}

/// The badges in one text, each on a line of its own after a line break.
pub open spec fn folded_badges(badges: Seq<Seq<char>>) -> Seq<char>
    decreases badges.len(),
{
    if badges.len() == 0 {
        Seq::empty()
    } else {
        folded_badges(badges.drop_last()) + "\n"@ + badges.last()
    }
}

/// `readme` below the badges and an empty line; `readme` itself where there
/// are no badges.
pub open spec fn with_badges(readme: Seq<char>, badges: Seq<Seq<char>>) -> Seq<char> {
    if badges.len() > 0 {
        folded_badges(badges) + "\n\n"@ + readme
    } else {
        readme
    }
}

/// `readme` below a top-level heading with the crate's name.
pub open spec fn with_title(readme: Seq<char>, crate_name: Seq<char>) -> Seq<char> {
    if is_blank(readme) {
        "# "@ + crate_name
    } else {
        "# "@ + crate_name + "\n\n"@ + readme
    }
}

/// `readme` above a line that names the license.
pub open spec fn with_license(readme: Seq<char>, license: Seq<char>) -> Seq<char> {
    if is_blank(readme) {
        "License: "@ + license
    } else {
        readme + "\n\n"@ + "License: "@ + license
    }
}

/// `template` without the line breaks at its end.
pub open spec fn trimmed_template(template: Seq<char>) -> Seq<char> {
    template.subrange(0, stripped_len(template, '\n') as int)
}

/// `s` with `token` replaced by `value`, where there is a value.
pub open spec fn filled(s: Seq<char>, token: Seq<char>, value: Option<Seq<char>>) -> Seq<char> {
    match value {
        Some(v) => replaced(s, token, v),
        None => s,
    }
}

/// The folded badges, where there are badges.
pub open spec fn badge_text(badges: Option<Seq<Seq<char>>>) -> Option<Seq<char>> {
    match badges {
        Some(b) => Some(folded_badges(b)),
        None => None,
    }
}

/// `readme` with what the template has no token for put around it: the
/// badges and the title above, the license below, each where it is given.
pub open spec fn framed(
    t: Seq<char>,
    readme: Seq<char>,
    title: Option<Seq<char>>,
    badges: Option<Seq<Seq<char>>>,
    license: Option<Seq<char>>,
) -> Seq<char> {
    let r1 = if badges is Some && !contains(t, "{{badges}}"@) {
        with_badges(readme, badges->Some_0)
    } else {
        readme
    };
    let r2 = if title is Some && !contains(t, "{{crate}}"@) {
        with_title(r1, title->Some_0)
    } else {
        r1
    };
    if license is Some && !contains(t, "{{license}}"@) {
        with_license(r2, license->Some_0)
    } else {
        r2
    }
}

/// What a template renders to: the error for the first token that cannot be
/// filled, else the template, without the line breaks at its end, with
/// `{{crate}}`, `{{badges}}`, `{{license}}` and `{{readme}}` replaced in this
/// order. A token in the template takes the place of the default: what is
/// given and has no token goes around the readme text as it would without a
/// template.
pub open spec fn template_spec(
    template: Seq<char>,
    readme: Seq<char>,
    title: Option<Seq<char>>,
    badges: Option<Seq<Seq<char>>>,
    license: Option<Seq<char>>,
) -> Result<Seq<char>, TemplateError> {
    let t = trimmed_template(template);
    if !contains(t, "{{readme}}"@) {
        Err(TemplateError::MissingReadme)
    } else if contains(t, "{{badges}}"@) && badges is None {
        Err(TemplateError::NoBadges)
    } else if contains(t, "{{license}}"@) && license is None {
        Err(TemplateError::NoLicense)
    } else if contains(t, "{{crate}}"@) && title is None {
        Err(TemplateError::NoTitle)
    } else {
        let t1 = filled(t, "{{crate}}"@, title);
        let t2 = filled(t1, "{{badges}}"@, badge_text(badges));
        let t3 = filled(t2, "{{license}}"@, license);
        Ok(replaced(t3, "{{readme}}"@, framed(t, readme, title, badges, license)))
    }
}

/// What `value` is worth when it is wanted only if `wanted`.
pub open spec fn only_if<T>(wanted: bool, value: Option<T>) -> Option<T> {
    if wanted {
        value
    } else {
        None
    }
}

/// The README for a crate: through the template where there is one, else
/// `readme` with badges, title and license put around it as far as each is
/// wanted (a license that is wanted is taken to be there).
pub open spec fn render_spec(
    template: Option<Seq<char>>,
    readme: Seq<char>,
    name: Seq<char>,
    badges: Seq<Seq<char>>,
    license: Option<Seq<char>>,
    add_title: bool,
    add_badges: bool,
    add_license: bool,
) -> Result<Seq<char>, TemplateError> {
    match template {
        Some(t) => {
            if contains(t, "{{license}}"@) && !add_license {
                Err(TemplateError::LicenseNotWanted)
            } else if contains(t, "{{badges}}"@) && !add_badges {
                Err(TemplateError::BadgesNotWanted)
            } else if contains(t, "{{crate}}"@) && !add_title {
                Err(TemplateError::TitleNotWanted)
            } else {
                template_spec(
                    t,
                    readme,
                    only_if(add_title, Some(name)),
                    only_if(add_badges, Some(badges)),
                    only_if(add_license, license),
                )
            }
        },
        None => {
            let r1 = if add_badges {
                with_badges(readme, badges)
            } else {
                readme
            };
            let r2 = if add_title {
                with_title(r1, name)
            } else {
                r1
            };
            Ok(
                if add_license {
                    with_license(r2, license->Some_0)
                } else {
                    r2
                },
            )
        },
    }
}

/// The texts of an optional list of strings.
pub open spec fn texts_of(v: Option<&Vec<String>>) -> Option<Seq<Seq<char>>> {
    match v {
        Some(v) => Some(texts(v@)),
        None => None,
    }
}

/// The text of an optional string slice.
pub open spec fn str_of(s: Option<&str>) -> Option<Seq<char>> {
    match s {
        Some(s) => Some(s@),
        None => None,
    }
}

/// The badges in one text, each on a line of its own after a line break.
pub fn fold_badges(badges: &Vec<String>) -> (r: String)
    ensures
        r@ == folded_badges(texts(badges@)),
{
    let n: usize = badges.len();
    let mut out = String::new();
    let mut i: usize = 0;
    let ghost all = texts(badges@);
    while i < n
        invariant
            i <= n,
            n == badges@.len(),
            all == texts(badges@),
            out@ == folded_badges(all.subrange(0, i as int)),
        decreases n - i,
    {
        proof {
            assert(all[i as int] == badges@[i as int]@);
            assert(all.subrange(0, i + 1).drop_last() =~= all.subrange(0, i as int));
        }
        out.append("\n");
        out.append(badges[i].as_str());
        i += 1;
    }
    proof {
        assert(all.subrange(0, n as int) =~= all);
    }
    out
}

/// Puts the badges above `readme`.
pub fn prepend_badges(readme: String, badges: &Vec<String>) -> (r: String)
    ensures
        r@ == with_badges(readme@, texts(badges@)),
{
    if badges.len() > 0 {
        let folded = fold_badges(badges);
        concat3(folded.as_str(), "\n\n", readme.as_str())
    } else {
        readme
    }
}

/// Puts the title, the crate's name as a top-level heading, above `readme`.
pub fn prepend_title(readme: String, crate_name: &str) -> (r: String)
    ensures
        r@ == with_title(readme@, crate_name@),
{
    let title = concat2("# ", crate_name);
    if !is_blank_str(readme.as_str()) {
        concat3(title.as_str(), "\n\n", readme.as_str())
    } else {
        title
    }
}

/// Puts the license line below `readme`.
pub fn append_license(readme: String, license: &str) -> (r: String)
    ensures
        r@ == with_license(readme@, license@),
{
    let line = concat2("License: ", license);
    if !is_blank_str(readme.as_str()) {
        let r = concat3(readme.as_str(), "\n\n", line.as_str());
        proof {
            assert(r@ =~= readme@ + "\n\n"@ + "License: "@ + license@);
        }
        r
    } else {
        line
    }
}

/// Replaces `token` in `s` by `value`, where there is a value.
fn fill(s: String, token: &str, value: Option<&str>) -> (r: String)
    ensures
        r@ == filled(s@, token@, str_of(value)),
{
    match value {
        Some(v) => replace_all(s.as_str(), token, v),
        None => s,
    }
}

/// Fills in a template. What is given and has no token in the template is
/// put around the documentation instead.
///
/// - `{{readme}}` stands for the documentation taken from the source file
/// - `{{crate}}` for the crate's name
/// - `{{badges}}` for the crate's badges
/// - `{{license}}` for the crate's license
pub fn process_template(
    template: String,
    readme: String,
    title: Option<&str>,
    badges: Option<&Vec<String>>,
    license: Option<&str>,
) -> (r: Result<String, TemplateError>)
    ensures
        match r {
            Ok(s) => template_spec(template@, readme@, str_of(title), texts_of(badges), str_of(license))
                == Ok::<Seq<char>, TemplateError>(s@),
            Err(e) => template_spec(
                template@,
                readme@,
                str_of(title),
                texts_of(badges),
                str_of(license),
            ) == Err::<Seq<char>, TemplateError>(e),
        },
{
    let template = strip_end(template.as_str(), '\n');
    if !contains_str(template.as_str(), "{{readme}}") {
        return Err(TemplateError::MissingReadme);
    }
    if contains_str(template.as_str(), "{{badges}}") && badges.is_none() {
        return Err(TemplateError::NoBadges);
    }
    if contains_str(template.as_str(), "{{license}}") && license.is_none() {
        return Err(TemplateError::NoLicense);
    }
    if contains_str(template.as_str(), "{{crate}}") && title.is_none() {
        return Err(TemplateError::NoTitle);
    }
    let mut readme = readme;
    match badges {
        Some(b) => {
            if !contains_str(template.as_str(), "{{badges}}") {
                readme = prepend_badges(readme, b);
            }
        },
        None => {},
    }
    match title {
        Some(name) => {
            if !contains_str(template.as_str(), "{{crate}}") {
                readme = prepend_title(readme, name);
            }
        },
        None => {},
    }
    match license {
        Some(l) => {
            if !contains_str(template.as_str(), "{{license}}") {
                readme = append_license(readme, l);
            }
        },
        None => {},
    }
    let t1 = fill(template, "{{crate}}", title);
    let t2 = match badges {
        Some(b) => {
            let folded = fold_badges(b);
            replace_all(t1.as_str(), "{{badges}}", folded.as_str())
        },
        None => t1,
    };
    let t3 = fill(t2, "{{license}}", license);
    Ok(replace_all(t3.as_str(), "{{readme}}", readme.as_str()))
}

/// Renders the README of the crate that `cargo` describes.
///
/// With a template, a token for something that is switched off is an error,
/// and so is a token with nothing to fill it. Without one, the badges and the
/// title go above `readme` and the license below it, each if it is wanted; a
/// license that is wanted must then be there.
pub fn render(
    template: Option<String>,
    readme: String,
    cargo: &Manifest,
    add_title: bool,
    add_badges: bool,
    add_license: bool,
) -> (r: Result<String, TemplateError>)
    requires
        template is None && add_license ==> cargo.license is Some,
    ensures
        match r {
            Ok(s) => render_spec(
                text_of(template),
                readme@,
                cargo.name@,
                texts(cargo.badges@),
                text_of(cargo.license),
                add_title,
                add_badges,
                add_license,
            ) == Ok::<Seq<char>, TemplateError>(s@),
            Err(e) => render_spec(
                text_of(template),
                readme@,
                cargo.name@,
                texts(cargo.badges@),
                text_of(cargo.license),
                add_title,
                add_badges,
                add_license,
            ) == Err::<Seq<char>, TemplateError>(e),
        },
{
    match template {
        Some(template) => {
            if contains_str(template.as_str(), "{{license}}") && !add_license {
                return Err(TemplateError::LicenseNotWanted);
            }
            if contains_str(template.as_str(), "{{badges}}") && !add_badges {
                return Err(TemplateError::BadgesNotWanted);
            }
            if contains_str(template.as_str(), "{{crate}}") && !add_title {
                return Err(TemplateError::TitleNotWanted);
            }
            let title: Option<&str> = if add_title {
                Some(cargo.name.as_str())
            } else {
                None
            };
            let badges: Option<&Vec<String>> = if add_badges {
                Some(&cargo.badges)
            } else {
                None
            };
            let license: Option<&str> = match &cargo.license {
                Some(l) => if add_license {
                    Some(l.as_str())
                } else {
                    None
                },
                None => None,
            };
            process_template(template, readme, title, badges, license)
        },
        None => {
            let mut readme = readme;
            if add_badges {
                readme = prepend_badges(readme, &cargo.badges);
            }
            if add_title {
                readme = prepend_title(readme, cargo.name.as_str());
            }
            if add_license {
                match &cargo.license {
                    Some(l) => {
                        readme = append_license(readme, l.as_str());
                    },
                    None => {},
                }
            }
            Ok(readme)
        },
    }
}

} // verus!
