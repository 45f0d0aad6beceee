//! The configuration: which templates exist and where their sources are.

use vstd::prelude::*;

use crate::error::MoldyError;
use crate::paths::{ask_exists, home_directory, join_path, path_join, DiskAnswer};
use crate::templates::{keys_of, lookup, EntryView, TemplateMap};
use crate::text::{joined, texts};

verus! {

/// The configuration file's contents: a table from template keys to source
/// directories.
#[derive(Debug)]
pub struct Config {
    pub templates: TemplateMap,
}

impl Default for Config {
    /// A configuration without templates.
    fn default() -> (res: Self)
        ensures
            res.templates@ == Seq::<(Seq<char>, Seq<char>)>::empty(),
    {
        Config { templates: TemplateMap::new() }
    }
}

/// The configuration file for a home directory: `<home>/.config/moldy/config.toml`,
/// each step joined as `std::path` joins.
pub open spec fn config_path_for(home: Seq<char>) -> Seq<char> {
    path_join(path_join(path_join(home, ".config"@), "moldy"@), "config.toml"@)
}

/// The configuration file that belongs to the home directory `home`.
pub fn config_path_in(home: &str) -> (res: String)
    ensures
        res@ == config_path_for(home@),
{
    let dir = join_path(home, ".config");
    let dir = join_path(dir.as_str(), "moldy");
    join_path(dir.as_str(), "config.toml")
}

/// The configuration file of the current user, or `None` when no home directory
/// can be found.
pub fn get_config_path() -> (res: Option<String>)
    ensures
        res matches Some(p) ==> exists|home: Seq<char>| p@ == #[trigger] config_path_for(home),
{
    match home_directory() {
        Some(home) => Some(config_path_in(home.as_str())),
        None => None,
    }
}

/// The configuration file to read, once it is known whether `path` exists: a
/// missing file is `ConfigMissing` with its path.
pub fn require_config_file(path: String, exists: bool) -> (res: Result<String, MoldyError>)
    ensures
        exists ==> (res matches Ok(p) && p@ == path@),
        !exists ==> (res matches Err(MoldyError::ConfigMissing(p)) && p@ == path@),
{
    if exists {
        Ok(path)
    } else {
        Err(MoldyError::ConfigMissing(path))
    }
}

/// The answer for a key whose source directory is `path`, once it is known whether
/// that directory exists: the key and the path, or `TemplatePathMissing`.
pub fn template_found(key: &str, path: &str, path_exists: bool) -> (res: Result<
    (String, String),
    MoldyError,
>)
    ensures
        path_exists ==> (res matches Ok((k, p)) && k@ == key@ && p@ == path@),
        !path_exists ==> (res matches Err(MoldyError::TemplatePathMissing(p)) && p@ == path@),
{
    if path_exists {
        Ok((String::from_str(key), String::from_str(path)))
    } else {
        Err(MoldyError::TemplatePathMissing(String::from_str(path)))
    }
}

/// The lookup of a template with the disk's answer it rests on.
#[derive(Debug)]
pub struct TemplateCheck {
    pub result: Result<(String, String), MoldyError>,
    /// The disk's answer to whether the configured source exists, asked only for a
    /// known key.
    pub source: Option<DiskAnswer>,
}

/// Whether `check` answers the lookup of `key` in `entries`: an unknown key lists
/// every key and asks the disk nothing; a known key asks the disk whether its
/// configured source path itself exists, and gives the key and that path exactly
/// when the disk says so, `TemplatePathMissing` with the path otherwise.
pub open spec fn template_check_for(entries: Seq<EntryView>, key: Seq<char>, check: TemplateCheck) -> bool {
    match lookup(entries, key) {
        None => check.source is None && (check.result matches Err(
            MoldyError::TemplateKeyMissing(k, available),
        ) && k@ == key && texts(available@) == keys_of(entries)),
        Some(path) => check.source matches Some(a) && a.asked() == path && !a.about_directory()
            && (a.said() ==> (check.result matches Ok((k, p)) && k@ == key && p@ == path)) && (
        !a.said() ==> (check.result matches Err(MoldyError::TemplatePathMissing(p)) && p@
            == path)),
    }
}

/// Finds the source directory of the template `key`, asking the disk about the
/// configured path itself.
pub fn observe_template(config: &Config, key: &str) -> (res: TemplateCheck)
    ensures
        template_check_for(config.templates@, key@, res),
{
    match config.templates.get(key) {
        None => {
            let available = config.templates.keys();
            TemplateCheck {
                result: Err(MoldyError::TemplateKeyMissing(String::from_str(key), available)),
                source: None,
            }
        },
        Some(path) => {
            let answer = ask_exists(path.as_str());
            let result = template_found(key, path.as_str(), answer.answer());
            TemplateCheck { result, source: Some(answer) }
        },
    }
}

/// For a known key, the lookup succeeds exactly when the disk, asked about the
/// configured source path itself, says it exists, and then gives that path;
/// otherwise it reports that path missing. An unknown key never asks the disk.
pub proof fn law_template_follows_its_source(
    entries: Seq<EntryView>,
    key: Seq<char>,
    check: TemplateCheck,
)
    requires
        template_check_for(entries, key, check),
    ensures
        lookup(entries, key) is None <==> check.source is None,
        lookup(entries, key) matches Some(path) ==> (check.source matches Some(a) && a.asked()
            == path && (check.result is Ok <==> a.said())),
        check.result matches Ok((k, p)) ==> (lookup(entries, key) == Some(p@) && k@ == key),
        check.result matches Err(MoldyError::TemplatePathMissing(p)) ==> (lookup(entries, key)
            == Some(p@) && (check.source matches Some(a) && !a.said())),
{
}

/// Finds the source directory of the template `key`, and reports whether the disk
/// said it exists (`None` when the key is unknown, and the disk was not asked).
/// The answer follows `template_found` from what the disk said; `observe_template`
/// keeps the disk's answer itself.
pub fn inspect_template(config: &Config, key: &str) -> (res: (
    Result<(String, String), MoldyError>,
    Option<bool>,
))
    ensures
        match lookup(config.templates@, key@) {
            None => res.1 is None && (res.0 matches Err(MoldyError::TemplateKeyMissing(
                k,
                available,
            )) && k@ == key@ && texts(available@) == keys_of(config.templates@)),
            Some(path) => res.1 is Some && (res.1->Some_0 ==> (res.0 matches Ok((k, p)) && k@
                == key@ && p@ == path)) && (!res.1->Some_0 ==> (res.0 matches Err(
                MoldyError::TemplatePathMissing(p),
            ) && p@ == path)),
        },
{
    let check = observe_template(config, key);
    let seen = match &check.source {
        Some(a) => Some(a.answer()),
        None => None,
    };
    (check.result, seen)
}

/// Finds the source directory of the template `key`.
///
/// An unknown key gives `TemplateKeyMissing` with every key of the configuration,
/// in table order. A known key gives the key and its path when that path exists on
/// disk at the time of the check, and `TemplatePathMissing` with the path when it
/// does not; `observe_template` keeps that answer of the disk.
pub fn get_template_path(config: &Config, key: &str) -> (res: Result<
    (String, String),
    MoldyError,
>)
    ensures
        match lookup(config.templates@, key@) {
            None => res matches Err(MoldyError::TemplateKeyMissing(k, available)) && k@ == key@
                && texts(available@) == keys_of(config.templates@),
            Some(path) => {
                ||| res matches Ok((k, p)) && k@ == key@ && p@ == path
                ||| res matches Err(MoldyError::TemplatePathMissing(p)) && p@ == path
            },
        },
{
    observe_template(config, key).result
}

/// The error for an unknown key lists the templates that do exist, separated by
/// commas, and lists nothing when there are none.
pub proof fn law_unknown_key_lists_templates(
    entries: Seq<EntryView>,
    key: String,
    available: Vec<String>,
)
    requires
        texts(available@) == keys_of(entries),
    ensures
        MoldyError::TemplateKeyMissing(key, available).message() == "Template '"@ + key@
            + "' not found in config"@ + if entries.len() == 0 {
            Seq::empty()
        } else {
            "\nAvailable templates: "@ + joined(keys_of(entries), ", "@)
        },
{
    assert(texts(available@).len() == available@.len());
}

} // verus!
