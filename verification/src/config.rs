//! The settings of one run, and the choice of the file to read.
//!
//! Nothing here touches the file system: the caller says which of the
//! default entry points exist, and paths are plain strings relative to the
//! project root.

use vstd::prelude::*;
use vstd::string::*;
use crate::manifest::{Manifest, ManifestLib, DEFAULT_LIB};
use crate::text::{concat3, join, joined, text_of, texts};

verus! {


/// The default entry point of a program.
pub const DEFAULT_MAIN: &'static str = "src/main.rs";

/// The settings of one run.
pub struct ReadmeConfig {
    pub root: String,
    pub input: String,
    pub template: Option<String>,
    pub add_title: bool,
    pub add_badges: bool,
    pub add_license: bool,
    pub indent_headings: bool,
}

/// The settings that the caller chose; what is `None` takes its default.
pub struct ReadmeConfigDefaults {
    pub root: Option<String>,
    pub input: Option<String>,
    pub template: Option<String>,
    pub add_title: Option<bool>,
    pub add_badges: Option<bool>,
    pub add_license: Option<bool>,
    pub indent_headings: Option<bool>,
}

impl Default for ReadmeConfigDefaults {
    fn default() -> (r: Self)
        ensures
            r.root is None,
            r.input is None,
            r.template is None,
            r.add_title is None,
            r.add_badges is None,
            r.add_license is None,
            r.indent_headings is None,
    {
        ReadmeConfigDefaults {
            root: None,
            input: None,
            template: None,
            add_title: None,
            add_badges: None,
            add_license: None,
            indent_headings: None,
        }
    }
}

/// Why no input file could be chosen.
#[derive(Debug)]
pub enum ConfigError {
    /// Several documented binaries are declared: their paths.
    MultipleBinaries(Vec<String>),
    /// No entry point exists and none is declared.
    NoEntrypoint,
}

impl ConfigError {
    /// A one-line description of the error.
    pub fn message(&self) -> (r: String)
        ensures
            r@ == (match self {
                ConfigError::MultipleBinaries(paths) => "Multiple binaries found, choose one: ["@
                    + joined(texts(paths@), ", "@) + "]"@,
                ConfigError::NoEntrypoint => "No entrypoint found"@,
            }),
    {
        match self {
            ConfigError::MultipleBinaries(paths) => {
                let list = join(paths, ", ");
                concat3("Multiple binaries found, choose one: [", list.as_str(), "]")
            },
            ConfigError::NoEntrypoint => String::from_str("No entrypoint found"),
        }
    }
}

/// The paths of the targets of `bins` that are documented, in order.
pub open spec fn documented(bins: Seq<ManifestLib>) -> Seq<Seq<char>>
    decreases bins.len(),
{
    if bins.len() == 0 {
        Seq::empty()
    } else if bins.last().doc {
        documented(bins.drop_last()).push(bins.last().path@)
    } else {
        documented(bins.drop_last())
    }
}

/// The outcome of choosing an input file, with texts in place of strings.
pub enum InputChoice {
    Path(Seq<char>),
    MultipleBinaries(Seq<Seq<char>>),
    NoEntrypoint,
}

/// The file to read the doc comments from, relative to the project root:
/// `src/lib.rs` where it exists, else `src/main.rs` where it exists, else the
/// library that the manifest declares, if it is documented, else the one
/// documented binary that it declares.
pub open spec fn input_spec(lib_rs: bool, main_rs: bool, manifest: Manifest) -> InputChoice {
    let bins = documented(manifest.bin@);
    if lib_rs {
        InputChoice::Path(DEFAULT_LIB@)
    } else if main_rs {
        InputChoice::Path(DEFAULT_MAIN@)
    } else if manifest.lib is Some && manifest.lib->Some_0.doc {
        InputChoice::Path(manifest.lib->Some_0.path@)
    } else if bins.len() > 1 {
        InputChoice::MultipleBinaries(bins)
    } else if bins.len() == 1 {
        InputChoice::Path(bins[0])
    } else {
        InputChoice::NoEntrypoint
    }
}

/// The outcome of `find_input`, with texts in place of strings.
pub open spec fn choice_of(r: Result<String, ConfigError>) -> InputChoice {
    match r {
        Ok(path) => InputChoice::Path(path@),
        Err(ConfigError::MultipleBinaries(paths)) => InputChoice::MultipleBinaries(texts(paths@)),
        Err(ConfigError::NoEntrypoint) => InputChoice::NoEntrypoint,
    }
}

/// The paths of the documented targets among `bins`.
pub fn documented_paths(bins: &Vec<ManifestLib>) -> (out: Vec<String>)
    ensures
        texts(out@) == documented(bins@),
{
    let n: usize = bins.len();
    let mut out: Vec<String> = Vec::new();
    let mut i: usize = 0;
    proof {
        assert(texts(out@) =~= documented(bins@.subrange(0, 0)));
    }
    while i < n
        invariant
            i <= n,
            n == bins@.len(),
            texts(out@) == documented(bins@.subrange(0, i as int)),
        decreases n - i,
    {
        let ghost before = out@;
        proof {
            assert(bins@.subrange(0, i + 1).drop_last() =~= bins@.subrange(0, i as int));
        }
        if bins[i].doc {
            out.push(bins[i].path.clone());
            proof {
                assert(texts(out@) =~= texts(before).push(bins@[i as int].path@));
            }
        }
        i += 1;
    }
    proof {
        assert(bins@.subrange(0, n as int) =~= bins@);
    }
    out
}

/// Finds the file to read the doc comments from, relative to the project
/// root. `lib_rs` and `main_rs` say whether `src/lib.rs` and `src/main.rs`
/// exist there.
pub fn find_input(lib_rs: bool, main_rs: bool, manifest: &Manifest) -> (r: Result<
    String,
    ConfigError,
>)
    ensures
        choice_of(r) == input_spec(lib_rs, main_rs, *manifest),
{
    if lib_rs {
        return Ok(String::from_str(DEFAULT_LIB));
    }
    if main_rs {
        return Ok(String::from_str(DEFAULT_MAIN));
    }
    match &manifest.lib {
        Some(lib) => {
            if lib.doc {
                return Ok(lib.path.clone());
            }
        },
        None => {},
    }
    let mut bins = documented_paths(&manifest.bin);
    if bins.len() > 1 {
        return Err(ConfigError::MultipleBinaries(bins));
    }
    if bins.len() == 1 {
        let ghost before = bins@;
        let only = bins.remove(0);
        proof {
            assert(texts(before)[0] == only@);
        }
        return Ok(only);
    }
    Err(ConfigError::NoEntrypoint)
}

/// The value that was chosen, or the default.
pub open spec fn chosen(value: Option<bool>) -> bool {
    match value {
        Some(b) => b,
        None => true,
    }
}

/// Completes the settings that the caller chose: the root is the one given,
/// else `current_root`; the input is the one given, else the one that
/// `find_input` finds; each switch that was not set is on.
pub fn get_config(
    defaults: ReadmeConfigDefaults,
    current_root: String,
    lib_rs: bool,
    main_rs: bool,
    manifest: &Manifest,
) -> (r: Result<ReadmeConfig, ConfigError>)
    ensures
        r is Err <==> defaults.input is None && !(input_spec(lib_rs, main_rs, *manifest)
            is Path),
        r matches Err(e) ==> choice_of(Err(e)) == input_spec(lib_rs, main_rs, *manifest),
        r matches Ok(c) ==> {
            &&& c.root@ == (match defaults.root {
                Some(root) => root@,
                None => current_root@,
            })
            &&& match defaults.input {
                Some(input) => c.input@ == input@,
                None => InputChoice::Path(c.input@) == input_spec(lib_rs, main_rs, *manifest),
            }
            &&& text_of(c.template) == text_of(defaults.template)
            &&& c.add_title == chosen(defaults.add_title)
            &&& c.add_badges == chosen(defaults.add_badges)
            &&& c.add_license == chosen(defaults.add_license)
            &&& c.indent_headings == chosen(defaults.indent_headings)
        },
{
    let root = match defaults.root {
        Some(root) => root,
        None => current_root,
    };
    let input = match defaults.input {
        Some(input) => input,
        None => match find_input(lib_rs, main_rs, manifest) {
            Ok(input) => input,
            Err(e) => {
                return Err(e);
            },
        },
    };
    Ok(
        ReadmeConfig {
            root,
            input,
            template: defaults.template,
            add_title: pick(defaults.add_title),
            add_badges: pick(defaults.add_badges),
            add_license: pick(defaults.add_license),
            indent_headings: pick(defaults.indent_headings),
        },
    )
}

/// The value that was chosen, or `true`.
fn pick(value: Option<bool>) -> (r: bool)
    ensures
        r == chosen(value),
{
    match value {
        Some(b) => b,
        None => true,
    }
}

} // verus!
