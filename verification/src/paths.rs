//! Paths, home directory and tilde expansion.
//!
//! Paths are held as text. What a path means is decided by `std::path` and by
//! the file system: this module reaches both through small trusted items and
//! names the results that depend on the text alone.

use vstd::prelude::*;

use crate::text::opt_text;

verus! {

/// What `std::path::Path::parent` returns for the path with this text.
pub uninterp spec fn path_parent(path: Seq<char>) -> Option<Seq<char>>;

/// What `std::path::Path::file_name` returns for the path with this text.
pub uninterp spec fn path_file_name(path: Seq<char>) -> Option<Seq<char>>;

/// What `std::path::Path::join` returns for these two paths.
pub uninterp spec fn path_join(base: Seq<char>, component: Seq<char>) -> Seq<char>;

/// What `std::path::Path::strip_prefix` returns, when it succeeds, for these two paths.
pub uninterp spec fn path_strip_prefix(path: Seq<char>, base: Seq<char>) -> Option<Seq<char>>;

/// Calls `std::path::Path::parent`. Claims that the result is `path_parent` of the
/// argument, and, as the documentation says, that the empty path and the root have
/// no parent. The parent of a path given as text is a prefix of that text, so the
/// conversion back to text loses nothing.
#[verifier::external_body]
pub(crate) fn parent_of(path: &str) -> (res: Option<String>)
    ensures
        opt_text(res) == path_parent(path@),
        path@.len() == 0 ==> res is None,
        path@ == seq!['/'] ==> res is None,
{
    match std::path::Path::new(path).parent() {
        Some(p) => Some(p.to_string_lossy().into_owned()),
        None => None,
    }
}

/// Calls `std::path::Path::file_name`. Claims that the result is `path_file_name`
/// of the argument, and, as the documentation says, that the root has no file
/// name. A file name taken from text converts back to text unchanged.
#[verifier::external_body]
pub(crate) fn file_name_of(path: &str) -> (res: Option<String>)
    ensures
        opt_text(res) == path_file_name(path@),
        path@ == seq!['/'] ==> res is None,
{
    match std::path::Path::new(path).file_name() {
        Some(name) => Some(name.to_string_lossy().into_owned()),
        None => None,
    }
}

/// Calls `std::path::Path::join`. Claims that the result is `path_join` of the
/// arguments.
#[verifier::external_body]
pub(crate) fn join_path(base: &str, component: &str) -> (res: String)
    ensures
        res@ == path_join(base@, component@),
{
    std::path::Path::new(base).join(component).to_string_lossy().into_owned()
}

/// Calls `std::path::Path::strip_prefix`. Claims that it succeeds exactly when
/// `path_strip_prefix` is some text, and then gives that text. The text of the
/// error on failure is not stated.
#[verifier::external_body]
pub(crate) fn strip_path_prefix(path: &str, base: &str) -> (res: Result<String, String>)
    ensures
        match res {
            Ok(rest) => path_strip_prefix(path@, base@) == Some(rest@),
            Err(_) => path_strip_prefix(path@, base@) is None,
        },
{
    match std::path::Path::new(path).strip_prefix(base) {
        Ok(rest) => Ok(rest.to_string_lossy().into_owned()),
        Err(e) => Err(format!("{}", e)),
    }
}

/// Calls `std::path::Path::exists`. The answer depends on the disk at the time of
/// the call, so nothing is claimed of it.
#[verifier::external_body]
pub(crate) fn path_exists(path: &str) -> (res: bool) {
    std::path::Path::new(path).exists()
}

/// Calls `std::path::Path::is_dir`. The answer depends on the disk at the time of
/// the call, so nothing is claimed of it.
#[verifier::external_body]
pub(crate) fn path_is_dir(path: &str) -> (res: bool) {
    std::path::Path::new(path).is_dir()
}

/// Calls `dirs::home_dir` and gives its answer as text; a home directory whose name
/// is not valid Unicode is given as `None`. The answer depends on the environment,
/// so nothing is claimed of it.
#[verifier::external_body]
pub(crate) fn home_directory() -> (res: Option<String>) {
    match dirs::home_dir() {
        Some(home) => home.into_os_string().into_string().ok(),
        None => None,
    }
}

/// An answer of the disk: which path it was asked about, whether the question
/// was "does it exist" or "is it a directory", and what it said at that moment.
/// Its fields are private to this module, where only `ask_exists` and `ask_is_dir`
/// make one, each by asking the disk about the path it records; so an answer that
/// a caller holds is the disk's answer about `asked()`.
#[derive(Debug)]
pub struct DiskAnswer {
    asked: String,
    about_dir: bool,
    said: bool,
}

impl DiskAnswer {
    /// The path the disk was asked about.
    pub closed spec fn asked(&self) -> Seq<char> {
        self.asked@
    }

    /// Whether the question was whether the path is a directory (otherwise,
    /// whether it exists).
    pub closed spec fn about_directory(&self) -> bool {
        self.about_dir
    }

    /// What the disk said.
    pub closed spec fn said(&self) -> bool {
        self.said
    }

    /// What the disk said.
    pub fn answer(&self) -> (res: bool)
        ensures
            res == self.said(),
    {
        self.said
    }

    /// The path the disk was asked about.
    pub fn path(&self) -> (res: &String)
        ensures
            res@ == self.asked(),
    {
        &self.asked
    }
}

/// Asks the disk whether `path` exists.
pub fn ask_exists(path: &str) -> (res: DiskAnswer)
    ensures
        res.asked() == path@,
        !res.about_directory(),
{
    let said = path_exists(path);
    DiskAnswer { asked: String::from_str(path), about_dir: false, said }
}

/// Asks the disk whether `path` is a directory.
pub fn ask_is_dir(path: &str) -> (res: DiskAnswer)
    ensures
        res.asked() == path@,
        res.about_directory(),
{
    let said = path_is_dir(path);
    DiskAnswer { asked: String::from_str(path), about_dir: true, said }
}

/// The environment's answer to "which is the user's home directory". Its field is
/// private to this module, where only `ask_home` makes one, by asking.
#[derive(Debug)]
pub struct HomeAnswer {
    home: Option<String>,
}

impl HomeAnswer {
    /// The home directory the environment gave, if any.
    pub closed spec fn said(&self) -> Option<Seq<char>> {
        opt_text(self.home)
    }

    /// The home directory the environment gave, if any.
    pub fn home(&self) -> (res: Option<String>)
        ensures
            opt_text(res) == self.said(),
    {
        match &self.home {
            Some(h) => Some(h.clone()),
            None => None,
        }
    }
}

/// Asks the environment for the user's home directory.
pub fn ask_home() -> (res: HomeAnswer) {
    HomeAnswer { home: home_directory() }
}

/// Whether a leading `~` of `input` stands for the home directory: it is the whole
/// input or is followed by `/`.
pub open spec fn tilde_headed(input: Seq<char>) -> bool {
    input.len() > 0 && input[0] == '~' && (input.len() == 1 || input[1] == '/')
}

/// Whether `input` starts with a `~` that `shellexpand` may expand on some platform:
/// it is followed by nothing, by `/` or by `\`.
pub open spec fn tilde_candidate(input: Seq<char>) -> bool {
    input.len() > 0 && input[0] == '~' && (input.len() == 1 || input[1] == '/' || input[1]
        == '\\')
}

/// `input` with a leading home-directory `~` replaced by `home`, when there is one.
pub open spec fn tilde_expanded(input: Seq<char>, home: Option<Seq<char>>) -> Seq<char> {
    if tilde_headed(input) {
        match home {
            Some(h) => h + input.skip(1),
            None => input,
        }
    } else {
        input
    }
}

/// Calls `shellexpand::tilde_with_context` with `home` as the home directory.
/// Claims what its source does: an input without a leading `~` that is alone or
/// followed by `/` or `\` comes back unchanged; a leading `~` that is alone or
/// followed by `/` is replaced by `home` when there is one. A `~` followed by `\`
/// is expanded on Windows only; that case is not stated.
#[verifier::external_body]
pub(crate) fn expand_tilde_with(input: &str, home: Option<String>) -> (res: String)
    ensures
        !tilde_candidate(input@) ==> res@ == input@,
        tilde_headed(input@) ==> res@ == tilde_expanded(input@, opt_text(home)),
{
    shellexpand::tilde_with_context(input, move || home).into_owned()
}

/// Expands a leading `~` of `path` into the home directory `home`: a `~` that is
/// alone or followed by `/` is replaced by `home` when there is one; a path without
/// a leading `~` comes back unchanged.
pub fn expand_path_with(path: &str, home: Option<String>) -> (res: String)
    ensures
        !tilde_candidate(path@) ==> res@ == path@,
        tilde_headed(path@) ==> res@ == tilde_expanded(path@, opt_text(home)),
{
    expand_tilde_with(path, home)
}

/// A path after tilde expansion, with the environment's answer it used.
#[derive(Debug)]
pub struct Expansion {
    pub expanded: String,
    pub home: HomeAnswer,
}

/// Expands a leading `~` of `path` into the home directory that the environment
/// gives, and returns that answer of the environment with the result.
pub fn observe_expansion(path: &str) -> (res: Expansion)
    ensures
        !tilde_candidate(path@) ==> res.expanded@ == path@,
        tilde_headed(path@) ==> res.expanded@ == tilde_expanded(path@, res.home.said()),
{
    let home = ask_home();
    let expanded = expand_path_with(path, home.home());
    Expansion { expanded, home }
}

/// What tilde expansion gives, stated by cases: a `~` that is alone or followed by
/// `/` becomes the home directory when the environment gives one, and the rest of
/// the path follows unchanged; without a home directory, or without such a `~`,
/// the path is unchanged.
pub proof fn law_tilde_becomes_home(path: Seq<char>, expansion: Expansion)
    requires
        !tilde_candidate(path) ==> expansion.expanded@ == path,
        tilde_headed(path) ==> expansion.expanded@ == tilde_expanded(path, expansion.home.said()),
    ensures
        tilde_headed(path) && expansion.home.said() is Some ==> ({
            let h = expansion.home.said()->Some_0;
            &&& expansion.expanded@.len() == h.len() + path.len() - 1
            &&& expansion.expanded@.subrange(0, h.len() as int) == h
            &&& expansion.expanded@.skip(h.len() as int) == path.skip(1)
        }),
        tilde_headed(path) && expansion.home.said() is None ==> expansion.expanded@ == path,
        path.len() == 0 || path[0] != '~' ==> expansion.expanded@ == path,
{
    if tilde_headed(path) && expansion.home.said() is Some {
        let h = expansion.home.said()->Some_0;
        assert(expansion.expanded@ == h + path.skip(1));
        assert(expansion.expanded@.subrange(0, h.len() as int) =~= h);
        assert(expansion.expanded@.skip(h.len() as int) =~= path.skip(1));
    }
}

/// Expands a leading `~` of a path given on the command line into the user's home
/// directory, as `observe_expansion` does.
pub fn expand_path(path: &str) -> (res: String)
    ensures
        !tilde_candidate(path@) ==> res@ == path@,
        tilde_headed(path@) ==> exists|home: Option<Seq<char>>|
            res@ == #[trigger] tilde_expanded(path@, home),
{
    let expansion = observe_expansion(path);
    proof {
        if tilde_headed(path@) {
            assert(expansion.expanded@ == tilde_expanded(path@, expansion.home.said()));
        }
    }
    expansion.expanded
}

} // verus!
