//! The command line interface of npins as data: what each command carries,
//! the values that stand in for omitted arguments, the checks that arguments
//! pass, and the completions offered for pin names.

use vstd::prelude::*;
use vstd::string::*;

use crate::pin::{view_result, PinView};
use crate::pins::{names_distinct, names_sorted, NixPins};
use crate::text::{
    char_seq_lt, parse_url, starts_with, str_eq, url_parse, UrlError, UrlErrorKind, UrlErrorView,
};

verus! {

/// Base folder for `sources.json` and `default.nix` when none is given.
pub const DEFAULT_DIRECTORY: &'static str = "npins";

/// The Niv lock file that `import-niv` reads when none is given.
pub const DEFAULT_NIV_SOURCES: &'static str = "nix/sources.json";

/// The flake lock file that `import-flake` reads when none is given.
pub const DEFAULT_FLAKE_LOCK: &'static str = "flake.lock";

/// Simultaneous downloads of `update` and `verify` when none is given.
pub const DEFAULT_MAX_CONCURRENT_DOWNLOADS: usize = 5;

/// The GitLab instance of `add gitlab` when none is given.
pub const DEFAULT_GITLAB_SERVER: &'static str = "https://gitlab.com/";

/// The channel artifact of `add channel` when none is given.
pub const NIXPKGS_ARTIFACT: &'static str = "nixexprs.tar.xz";

/// Context of every error of the `add git` URL argument.
pub const GIT_URL_CONTEXT: &'static str = "Failed to parse repository URL";

/// Advice for a git URL without scheme.
pub const MISSING_SCHEME_HINT: &'static str = "URL scheme is missing. For git URLs, add the fully qualified scheme like git+ssh://. For local repositories, add file://";

/// Advice for a git URL whose port does not parse.
pub const INVALID_PORT_HINT: &'static str = "Invalid port number. For git URLs, try inserting a '/' after the ':' before the user name, like so: git+ssh://git@gitlab-instance.net:/user/repo.git";

/// Error of `add gitlab` when the repository path is too short.
pub const REPO_PATH_TOO_SHORT: &'static str = "Repository path must be contain at least 2 segments";

#[derive(Debug)]
pub struct Opts {
    pub mode: SourceMode,
    pub verbose: bool,
    pub command: Command,
}

/// Type of file structures we support operating on
#[derive(Debug, PartialEq, Eq)]
pub enum SourceMode {
    /// Represents a initalized npins which has our `default.nix` and `sources.json`
    Directory { sources: String, default_nix: String, directory: String },
    /// Represents the path to a npins lockfile with nothing else that is managed by us
    Lockfile(String),
}

pub enum SourceModeView {
    Directory { sources: Seq<char>, default_nix: Seq<char>, directory: Seq<char> },
    Lockfile(Seq<char>),
}

impl View for SourceMode {
    type V = SourceModeView;

    open spec fn view(&self) -> SourceModeView {
        match self {
            SourceMode::Directory { sources, default_nix, directory } => SourceModeView::Directory {
                sources: sources@,
                default_nix: default_nix@,
                directory: directory@,
            },
            SourceMode::Lockfile(p) => SourceModeView::Lockfile(p@),
        }
    }
}

impl SourceModeView {
    /// The lock file that a mode operates on.
    pub open spec fn lockfile(self) -> Seq<char> {
        match self {
            SourceModeView::Directory { sources, .. } => sources,
            SourceModeView::Lockfile(p) => p,
        }
    }
}

/// What `Path::join` gives on Unix: an absolute `path` replaces `base`;
/// otherwise `path` is appended, with a `/` between them unless `base` is
/// empty or already ends with one.
pub open spec fn path_join(base: Seq<char>, path: Seq<char>) -> Seq<char> {
    if path.len() > 0 && path[0] == '/' {
        path
    } else if base.len() == 0 || base.last() == '/' {
        base + path
    } else {
        base + seq!['/'] + path
    }
}

/// Calls `Path::join` on UTF-8 paths (so `to_string_lossy` loses nothing).
/// Claims the Unix behaviour that std documents and implements in
/// `PathBuf::push`: the only separator is `/`, and a path that starts with it
/// is absolute. Nix, whose helpers this program runs, is Unix-only; on Windows
/// the separator and the prefixes differ.
#[verifier::external_body]
fn join_path(base: &str, path: &str) -> (r: String)
    ensures
        r@ == path_join(base@, path@),
{
    std::path::Path::new(base).join(path).to_string_lossy().into_owned()
}

/// The directory mode for a base folder.
pub open spec fn directory_mode(directory: Seq<char>) -> SourceModeView {
    SourceModeView::Directory {
        sources: path_join(directory, "sources.json"@),
        default_nix: path_join(directory, "default.nix"@),
        directory,
    }
}

impl SourceMode {
    pub fn from_directory(directory: String) -> (r: Self)
        ensures
            r@ == directory_mode(directory@),
    {
        SourceMode::Directory {
            sources: join_path(directory.as_str(), "sources.json"),
            default_nix: join_path(directory.as_str(), "default.nix"),
            directory,
        }
    }

    pub fn lockfile(&self) -> (r: &str)
        ensures
            r@ == self@.lockfile(),
    {
        match self {
            SourceMode::Directory { sources, .. } => sources.as_str(),
            SourceMode::Lockfile(sources) => sources.as_str(),
        }
    }
}

/// In directory mode the lock file is the `sources.json` inside the directory.
pub proof fn law_directory_lockfile(directory: Seq<char>)
    ensures
        directory_mode(directory).lockfile() == path_join(directory, "sources.json"@),
        directory.len() > 0 && directory.last() != '/' ==> directory_mode(directory).lockfile()
            == directory + "/sources.json"@,
{
    reveal_strlit("sources.json");
    reveal_strlit("/sources.json");
    if directory.len() > 0 && directory.last() != '/' {
        assert(directory + seq!['/'] + "sources.json"@ =~= directory + "/sources.json"@);
    }
}

/// Both managed files lie in the directory that was given: for a directory
/// that is not empty and does not end in `/`, the lock file is
/// `directory/sources.json` and the Nix entry point is `directory/default.nix`,
/// and the directory itself is kept.
pub proof fn law_directory_files(directory: Seq<char>)
    requires
        directory.len() > 0,
        directory.last() != '/',
    ensures
        directory_mode(directory) == (SourceModeView::Directory {
            sources: directory + "/sources.json"@,
            default_nix: directory + "/default.nix"@,
            directory,
        }),
{
    reveal_strlit("sources.json");
    reveal_strlit("/sources.json");
    reveal_strlit("default.nix");
    reveal_strlit("/default.nix");
    assert(directory + seq!['/'] + "sources.json"@ =~= directory + "/sources.json"@);
    assert(directory + seq!['/'] + "default.nix"@ =~= directory + "/default.nix"@);
}

#[derive(Debug)]
pub enum Command {
    Init(InitOpts),
    // Boxing AddOpts as it is by far our largest structure, reduces
    // memory requirements for smaller devices (even if marginal)
    Add(Box<AddOpts>),
    Show(ShowOpts),
    Update(UpdateOpts),
    Verify(VerifyOpts),
    Upgrade,
    Remove(RemoveOpts),
    ImportNiv(ImportOpts),
    ImportFlake(ImportFlakeOpts),
    Freeze(FreezeOpts),
    Unfreeze(FreezeOpts),
    GetPath(GetPathOpts),
}

#[derive(Debug)]
pub struct InitOpts {
    pub bare: bool,
}

#[derive(Debug)]
pub struct AddOpts {
    pub name: Option<String>,
    pub frozen: bool,
    pub dry_run: bool,
    pub command: AddCommands,
}

#[derive(Debug)]
pub struct ShowOpts {
    pub plain: bool,
    pub exclude: bool,
    pub names: Vec<String>,
}

#[derive(Debug)]
pub struct UpdateOpts {
    pub strategy: UpdateStrategy,
    pub dry_run: bool,
    pub update_frozen: bool,
    pub max_concurrent_downloads: usize,
    pub names: Vec<String>,
}

/// How to handle updates
#[derive(Debug, Clone, Copy, PartialEq, Eq)]
pub enum UpdateStrategy {
    /// Fetch latest version, update hashes if necessary
    Normal,
    /// Update hashes of the currently pinned version
    HashesOnly,
    /// Fetch latest version, always update hashes
    Full,
}

#[derive(Debug)]
pub struct VerifyOpts {
    pub max_concurrent_downloads: usize,
    pub names: Vec<String>,
}

#[derive(Debug)]
pub struct RemoveOpts {
    pub names: Vec<String>,
}

#[derive(Debug)]
pub struct ImportOpts {
    pub name: Option<String>,
    pub path: String,
}

#[derive(Debug)]
pub struct ImportFlakeOpts {
    pub name: Option<String>,
    pub path: String,
}

#[derive(Debug)]
pub struct FreezeOpts {
    pub names: Vec<String>,
}

#[derive(Debug)]
pub struct GetPathOpts {
    pub name: String,
}

#[derive(Debug)]
pub enum AddCommands {
    Channel(ChannelAddOpts),
    GitHub(GitHubAddOpts),
    Forgejo(ForgejoAddOpts),
    GitLab(GitLabAddOpts),
    Git(GitAddOpts),
    PyPi(PyPiAddOpts),
    Container(ContainerAddOpts),
    Tarball(UrlAddOpts),
    Url(UrlAddOpts),
}

#[derive(Debug)]
pub struct ChannelAddOpts {
    pub channel_name: String,
    pub artifact: String,
}

#[derive(Debug)]
pub struct GitHubAddOpts {
    pub more: GenericGitAddOpts,
    pub owner: String,
    pub repository: String,
}

#[derive(Debug)]
pub struct ForgejoAddOpts {
    pub more: GenericGitAddOpts,
    pub server: String,
    pub owner: String,
    pub repository: String,
}

/// `server` is the serialization of the parsed instance URL.
#[derive(Debug)]
pub struct GitLabAddOpts {
    pub more: GenericGitAddOpts,
    pub server: String,
    pub private_token: Option<String>,
    pub repo_path: Vec<String>,
}

/// `url` is the serialization of the parsed remote URL.
#[derive(Debug)]
pub struct GitAddOpts {
    pub more: GenericGitAddOpts,
    pub forge: GitForgeOpts,
    pub url: String,
}

#[derive(Debug)]
pub struct PyPiAddOpts {
    pub at: Option<String>,
    pub version_upper_bound: Option<String>,
    pub package_name: String,
}

#[derive(Debug)]
pub struct ContainerAddOpts {
    pub arch: Option<String>,
    pub image_name: String,
    pub image_tag: String,
}

/// `url` is the serialization of the parsed URL.
#[derive(Debug)]
pub struct UrlAddOpts {
    pub mutable: bool,
    pub url: String,
}

#[derive(Debug)]
pub struct GenericGitAddOpts {
    pub at: Option<String>,
    pub selected: GitAddSelection,
    pub submodules: bool,
}

#[derive(Debug)]
pub enum GitAddSelection {
    Branch { branch: String },
    Release {
        pre_releases: bool,
        version_upper_bound: Option<String>,
        release_prefix: Option<String>,
    },
}

/// Which forge serves a git remote.
#[derive(Debug, Clone, Copy, PartialEq, Eq)]
pub enum GitForgeOpts {
    /// `none` on the command line: a generic git pin, with no further information.
    Generic,
    Auto,
    Gitlab,
    Github,
    Forgejo,
}

impl Default for GitForgeOpts {
    fn default() -> (r: Self)
        ensures
            r == GitForgeOpts::Auto,
    {
        GitForgeOpts::Auto
    }
}

/// The name of a forge on the command line.
pub open spec fn forge_name(f: GitForgeOpts) -> Seq<char> {
    match f {
        GitForgeOpts::Generic => "none"@,
        GitForgeOpts::Auto => "auto"@,
        GitForgeOpts::Gitlab => "gitlab"@,
        GitForgeOpts::Github => "github"@,
        GitForgeOpts::Forgejo => "forgejo"@,
    }
}

/// The forge of a name, if it names one.
pub open spec fn forge_named(s: Seq<char>) -> Option<GitForgeOpts> {
    if s == "none"@ {
        Some(GitForgeOpts::Generic)
    } else if s == "auto"@ {
        Some(GitForgeOpts::Auto)
    } else if s == "gitlab"@ {
        Some(GitForgeOpts::Gitlab)
    } else if s == "github"@ {
        Some(GitForgeOpts::Github)
    } else if s == "forgejo"@ {
        Some(GitForgeOpts::Forgejo)
    } else {
        None
    }
}

/// The message for a word that names no forge.
pub open spec fn invalid_forge_message(s: Seq<char>) -> Seq<char> {
    "invalid value '"@ + s + "' for forge"@
}

impl GitForgeOpts {
    /// Reads the `--forge` argument.
    pub fn from_name(f: &str) -> (r: Result<Self, String>)
        ensures
            match forge_named(f@) {
                Some(x) => r == Ok::<Self, String>(x),
                None => r matches Err(m) && m@ == invalid_forge_message(f@),
            },
    {
        if str_eq(f, "none") {
            Ok(GitForgeOpts::Generic)
        } else if str_eq(f, "auto") {
            Ok(GitForgeOpts::Auto)
        } else if str_eq(f, "gitlab") {
            Ok(GitForgeOpts::Gitlab)
        } else if str_eq(f, "github") {
            Ok(GitForgeOpts::Github)
        } else if str_eq(f, "forgejo") {
            Ok(GitForgeOpts::Forgejo)
        } else {
            let mut m = String::from_str("invalid value '");
            m.append(f);
            m.append("' for forge");
            Err(m)
        }
    }

    /// The name of the forge, as the command line shows and reads it.
    pub fn as_str(&self) -> (r: &'static str)
        ensures
            r@ == forge_name(*self),
    {
        match self {
            GitForgeOpts::Generic => "none",
            GitForgeOpts::Auto => "auto",
            GitForgeOpts::Gitlab => "gitlab",
            GitForgeOpts::Github => "github",
            GitForgeOpts::Forgejo => "forgejo",
        }
    }
}

/// Reading back the name of a forge gives the same forge.
pub proof fn law_forge_name_roundtrip(f: GitForgeOpts)
    ensures
        forge_named(forge_name(f)) == Some(f),
{
    reveal_strlit("none");
    reveal_strlit("auto");
    reveal_strlit("gitlab");
    reveal_strlit("github");
    reveal_strlit("forgejo");
    // the names differ in their first or fourth character
    assert("auto"@[0] != "none"@[0]);
    assert("gitlab"@[0] != "none"@[0] && "gitlab"@[0] != "auto"@[0]);
    assert("github"@[0] != "none"@[0] && "github"@[0] != "auto"@[0] && "github"@[3] != "gitlab"@[3]);
    assert("forgejo"@[0] != "none"@[0] && "forgejo"@[0] != "auto"@[0] && "forgejo"@[0] != "gitlab"@[0]
        && "forgejo"@[0] != "github"@[0]);
}

/// A word that names a forge is that forge's name.
pub proof fn law_forge_named_is_name(s: Seq<char>)
    ensures
        forge_named(s) matches Some(f) ==> forge_name(f) == s,
{
}

/// The message for a git remote URL that does not parse.
pub open spec fn git_url_error_message(e: UrlErrorView) -> Seq<char> {
    match e.kind {
        UrlErrorKind::RelativeUrlWithoutBase => MISSING_SCHEME_HINT@,
        UrlErrorKind::InvalidPort => INVALID_PORT_HINT@,
        UrlErrorKind::Other => e.description,
    }
}

/// The `add git` URL argument, given what parsing it gave: the URL, or the
/// message that explains the failure (shown under [`GIT_URL_CONTEXT`]).
pub fn git_url_from_parse(parsed: Result<String, UrlError>) -> (r: Result<String, String>)
    ensures
        match parsed {
            Ok(u) => r matches Ok(s) && s@ == u@,
            Err(e) => r matches Err(m) && m@ == git_url_error_message(e@),
        },
{
    match parsed {
        Ok(u) => Ok(u),
        Err(e) => match e.kind {
            UrlErrorKind::RelativeUrlWithoutBase => Err(String::from_str(MISSING_SCHEME_HINT)),
            UrlErrorKind::InvalidPort => Err(String::from_str(INVALID_PORT_HINT)),
            UrlErrorKind::Other => Err(e.description),
        },
    }
}

/// Reads the `add git` URL argument.
pub fn parse_git_remote_url(x: &str) -> (r: Result<String, String>)
    ensures
        match url_parse(x@) {
            Ok(u) => r matches Ok(s) && s@ == u,
            Err(e) => r matches Err(m) && m@ == git_url_error_message(e),
        },
{
    git_url_from_parse(parse_url(x))
}

/// What the `add gitlab` instance URL is when none is given: the parse of
/// [`DEFAULT_GITLAB_SERVER`].
pub fn default_gitlab_server() -> (r: Result<String, UrlError>)
    ensures
        view_result(r) == url_parse(DEFAULT_GITLAB_SERVER@),
{
    parse_url(DEFAULT_GITLAB_SERVER)
}

/// Whether a GitLab repository path has the two segments it needs at least.
pub fn repo_path_is_valid(repo_path: &Vec<String>) -> (r: bool)
    ensures
        r == (repo_path@.len() >= 2),
{
    repo_path.len() >= 2
}

// ---------------------------------------------------------------------------
// Completions of pin names

/// Whether an entry is offered: its name starts with the word being
/// completed, it is not among the words already given, and, when a frozen
/// state is asked for, the pin is in that state.
pub open spec fn offered(
    entry: (Seq<char>, PinView),
    incomplete: Seq<char>,
    finished: Seq<Seq<char>>,
    frozen: Option<bool>,
) -> bool {
    &&& incomplete.is_prefix_of(entry.0)
    &&& !finished.contains(entry.0)
    &&& match frozen {
        Some(b) => entry.1.frozen() == b,
        None => true,
    }
}

/// The names of the offered entries, in the order of the entries.
pub open spec fn completions(
    entries: Seq<(Seq<char>, PinView)>,
    incomplete: Seq<char>,
    finished: Seq<Seq<char>>,
    frozen: Option<bool>,
) -> Seq<Seq<char>>
    decreases entries.len(),
{
    if entries.len() == 0 {
        Seq::empty()
    } else {
        let rest = completions(entries.drop_last(), incomplete, finished, frozen);
        if offered(entries.last(), incomplete, finished, frozen) {
            rest.push(entries.last().0)
        } else {
            rest
        }
    }
}

/// A name is offered exactly when some entry of that name is offered.
pub proof fn law_completions_exact(
    entries: Seq<(Seq<char>, PinView)>,
    incomplete: Seq<char>,
    finished: Seq<Seq<char>>,
    frozen: Option<bool>,
    name: Seq<char>,
)
    ensures
        completions(entries, incomplete, finished, frozen).contains(name) <==> exists|i: int|
            0 <= i < entries.len() && #[trigger] entries[i].0 == name && offered(
                entries[i],
                incomplete,
                finished,
                frozen,
            ),
    decreases entries.len(),
{
    if entries.len() > 0 {
        let init = entries.drop_last();
        law_completions_exact(init, incomplete, finished, frozen, name);
        let rest = completions(init, incomplete, finished, frozen);
        let c = completions(entries, incomplete, finished, frozen);
        if c.contains(name) {
            let k = choose|k: int| 0 <= k < c.len() && c[k] == name;
            if k < rest.len() {
                assert(rest[k] == name);
                let i = choose|i: int|
                    0 <= i < init.len() && #[trigger] init[i].0 == name && offered(
                        init[i],
                        incomplete,
                        finished,
                        frozen,
                    );
                assert(entries[i] == init[i]);
            } else {
                assert(entries[entries.len() - 1].0 == name);
            }
        }
        if exists|i: int|
            0 <= i < entries.len() && #[trigger] entries[i].0 == name && offered(
                entries[i],
                incomplete,
                finished,
                frozen,
            ) {
            let i = choose|i: int|
                0 <= i < entries.len() && #[trigger] entries[i].0 == name && offered(
                    entries[i],
                    incomplete,
                    finished,
                    frozen,
                );
            if i < entries.len() - 1 {
                assert(init[i] == entries[i]);
                let k = choose|k: int| 0 <= k < rest.len() && rest[k] == name;
                if offered(entries.last(), incomplete, finished, frozen) {
                    assert(c[k] == name);
                }
            } else {
                assert(c[c.len() - 1] == name);
            }
        }
    }
}

/// Every name offered starts with the word being completed and is not one of
/// the words already given.
pub proof fn law_completions_start_with_incomplete(
    entries: Seq<(Seq<char>, PinView)>,
    incomplete: Seq<char>,
    finished: Seq<Seq<char>>,
    frozen: Option<bool>,
    name: Seq<char>,
)
    requires
        completions(entries, incomplete, finished, frozen).contains(name),
    ensures
        incomplete.is_prefix_of(name),
        !finished.contains(name),
{
    law_completions_exact(entries, incomplete, finished, frozen, name);
}

/// The candidates among frozen pins and those among the other pins together
/// are the candidates among all pins, and no name is among both.
pub proof fn law_frozen_partition(
    entries: Seq<(Seq<char>, PinView)>,
    incomplete: Seq<char>,
    finished: Seq<Seq<char>>,
    name: Seq<char>,
)
    requires
        names_distinct(entries),
    ensures
        completions(entries, incomplete, finished, None).contains(name) <==> (completions(
            entries,
            incomplete,
            finished,
            Some(true),
        ).contains(name) || completions(entries, incomplete, finished, Some(false)).contains(name)),
        !(completions(entries, incomplete, finished, Some(true)).contains(name) && completions(
            entries,
            incomplete,
            finished,
            Some(false),
        ).contains(name)),
{
    law_completions_exact(entries, incomplete, finished, None, name);
    law_completions_exact(entries, incomplete, finished, Some(true), name);
    law_completions_exact(entries, incomplete, finished, Some(false), name);
    if completions(entries, incomplete, finished, None).contains(name) {
        let i = choose|i: int|
            0 <= i < entries.len() && #[trigger] entries[i].0 == name && offered(
                entries[i],
                incomplete,
                finished,
                None,
            );
        if entries[i].1.frozen() {
            assert(offered(entries[i], incomplete, finished, Some(true)));
        } else {
            assert(offered(entries[i], incomplete, finished, Some(false)));
        }
    }
    if completions(entries, incomplete, finished, Some(true)).contains(name) && completions(
        entries,
        incomplete,
        finished,
        Some(false),
    ).contains(name) {
        let i = choose|i: int|
            0 <= i < entries.len() && #[trigger] entries[i].0 == name && offered(
                entries[i],
                incomplete,
                finished,
                Some(true),
            );
        let j = choose|j: int|
            0 <= j < entries.len() && #[trigger] entries[j].0 == name && offered(
                entries[j],
                incomplete,
                finished,
                Some(false),
            );
        assert(i != j);
    }
}

/// Candidates come in name order, as the pins of a lock file do.
pub proof fn law_completions_sorted(
    entries: Seq<(Seq<char>, PinView)>,
    incomplete: Seq<char>,
    finished: Seq<Seq<char>>,
    frozen: Option<bool>,
)
    requires
        names_sorted(entries),
    ensures
        forall|i: int, j: int|
            0 <= i < j < completions(entries, incomplete, finished, frozen).len() ==> char_seq_lt(
                #[trigger] completions(entries, incomplete, finished, frozen)[i],
                #[trigger] completions(entries, incomplete, finished, frozen)[j],
            ),
    decreases entries.len(),
{
    if entries.len() > 0 {
        let init = entries.drop_last();
        assert(names_sorted(init)) by {
            assert forall|i: int, j: int| 0 <= i < j < init.len() implies char_seq_lt(
                #[trigger] init[i].0,
                #[trigger] init[j].0,
            ) by {
                assert(init[i] == entries[i]);
                assert(init[j] == entries[j]);
            };
        };
        law_completions_sorted(init, incomplete, finished, frozen);
        let rest = completions(init, incomplete, finished, frozen);
        let c = completions(entries, incomplete, finished, frozen);
        if offered(entries.last(), incomplete, finished, frozen) {
            assert forall|i: int, j: int| 0 <= i < j < c.len() implies char_seq_lt(
                #[trigger] c[i],
                #[trigger] c[j],
            ) by {
                if j == c.len() - 1 {
                    assert(rest.contains(c[i]));
                    law_completions_exact(init, incomplete, finished, frozen, c[i]);
                    let k = choose|k: int|
                        0 <= k < init.len() && #[trigger] init[k].0 == c[i] && offered(
                            init[k],
                            incomplete,
                            finished,
                            frozen,
                        );
                    assert(init[k] == entries[k]);
                    assert(entries.last() == entries[entries.len() - 1]);
                } else {
                    assert(c[i] == rest[i]);
                    assert(c[j] == rest[j]);
                }
            };
        }
    }
}

/// Every pin whose name starts with the word being completed and is not among
/// the words already given is offered, whatever kind of pin it is; when a
/// frozen state is asked for, every such pin in that state is offered.
pub proof fn law_completions_offer_every_match(
    entries: Seq<(Seq<char>, PinView)>,
    incomplete: Seq<char>,
    finished: Seq<Seq<char>>,
    frozen: Option<bool>,
    i: int,
)
    requires
        0 <= i < entries.len(),
        incomplete.is_prefix_of(entries[i].0),
        !finished.contains(entries[i].0),
        frozen matches Some(b) ==> entries[i].1.frozen() == b,
    ensures
        completions(entries, incomplete, finished, frozen).contains(entries[i].0),
{
    law_completions_exact(entries, incomplete, finished, frozen, entries[i].0);
    assert(offered(entries[i], incomplete, finished, frozen));
}

/// Completion candidates as the shell gets them: each name, without description.
pub open spec fn as_candidates(names: Seq<Seq<char>>) -> Seq<(Seq<char>, Option<Seq<char>>)> {
    names.map_values(|n: Seq<char>| (n, None::<Seq<char>>))
}

/// The word being completed: the last one given, or the empty word.
pub open spec fn incomplete_word(words: Seq<Seq<char>>) -> Seq<char> {
    if words.len() == 0 {
        Seq::empty()
    } else {
        words.last()
    }
}

/// The words given before the one being completed.
pub open spec fn finished_words(words: Seq<Seq<char>>) -> Seq<Seq<char>> {
    if words.len() == 0 {
        Seq::empty()
    } else {
        words.drop_last()
    }
}

/// Whether `name` is among `words`.
fn contains_word(words: &Vec<String>, end: usize, name: &str) -> (r: bool)
    requires
        end <= words@.len(),
    ensures
        r == words.deep_view().take(end as int).contains(name@),
{
    let mut i: usize = 0;
    while i < end
        invariant
            i <= end <= words@.len(),
            forall|j: int| 0 <= j < i ==> words.deep_view()[j] != name@,
        decreases end - i,
    {
        if str_eq(words[i].as_str(), name) {
            assert(words.deep_view().take(end as int)[i as int] == name@);
            return true;
        }
        i = i + 1;
    }
    proof {
        if words.deep_view().take(end as int).contains(name@) {
            let k = choose|k: int| 0 <= k < end && words.deep_view().take(end as int)[k] == name@;
            assert(words.deep_view()[k] == name@);
        }
    }
    false
}

/// The candidates among `pins`: names that start with `incomplete`, are not
/// among the first `n_finished` of `words`, and whose pin is in the `frozen`
/// state when one is asked for.
fn collect_completions(
    pins: &NixPins,
    incomplete: &str,
    words: &Vec<String>,
    n_finished: usize,
    frozen: Option<bool>,
) -> (r: Vec<(String, Option<String>)>)
    requires
        n_finished <= words@.len(),
    ensures
        r.deep_view() == as_candidates(
            completions(pins@, incomplete@, words.deep_view().take(n_finished as int), frozen),
        ),
{
    let ghost finished = words.deep_view().take(n_finished as int);
    let mut r: Vec<(String, Option<String>)> = Vec::new();
    let mut i: usize = 0;
    while i < pins.len()
        invariant
            i <= pins@.len(),
            n_finished <= words@.len(),
            finished == words.deep_view().take(n_finished as int),
            r.deep_view() == as_candidates(
                completions(pins@.take(i as int), incomplete@, finished, frozen),
            ),
        decreases pins@.len() - i,
    {
        let (name, pin) = pins.entry(i);
        let keep = starts_with(name.as_str(), incomplete) && !contains_word(words, n_finished, name.as_str())
            && match frozen {
            Some(b) => pin.is_frozen() == b,
            None => true,
        };
        let ghost before = r.deep_view();
        proof {
            assert(pins@.take(i + 1).drop_last() =~= pins@.take(i as int));
            assert(pins@.take(i + 1).last() == pins@[i as int]);
            assert(keep == offered(pins@[i as int], incomplete@, finished, frozen));
        }
        if keep {
            r.push((name.clone(), None));
            proof {
                assert(r.deep_view() =~= before.push((name@, None::<Seq<char>>)));
                assert(r.deep_view() =~= as_candidates(
                    completions(pins@.take(i + 1), incomplete@, finished, frozen),
                ));
            }
        }
        i = i + 1;
    }
    proof {
        assert(pins@.take(pins@.len() as int) =~= pins@);
    }
    r
}

/// Completes one pin name: the names of the pins that start with `incomplete`.
/// Without readable pins there is nothing to offer.
pub fn complete_pin(pins: Option<&NixPins>, incomplete: &String) -> (r: Vec<(String, Option<String>)>)
    ensures
        r.deep_view() == match pins {
            None => Seq::empty(),
            Some(p) => as_candidates(completions(p@, incomplete@, Seq::empty(), None)),
        },
{
    match pins {
        None => {
            let r: Vec<(String, Option<String>)> = Vec::new();
            assert(r.deep_view() =~= Seq::empty());
            r
        },
        Some(p) => {
            let words: Vec<String> = Vec::new();
            let r = collect_completions(p, incomplete.as_str(), &words, 0, None);
            assert(words.deep_view().take(0) =~= Seq::empty());
            r
        },
    }
}

/// The candidates for the last of several pin names. The names given before
/// it are not offered again: if `lix` and `lix-module` exist and `lix` is
/// typed last, both are offered.
fn complete_names(pins: Option<&NixPins>, v: &Vec<String>, frozen: Option<bool>) -> (r: Vec<
    (String, Option<String>),
>)
    ensures
        r.deep_view() == match pins {
            None => Seq::empty(),
            Some(p) => as_candidates(
                completions(p@, incomplete_word(v.deep_view()), finished_words(v.deep_view()), frozen),
            ),
        },
{
    match pins {
        None => {
            let r: Vec<(String, Option<String>)> = Vec::new();
            assert(r.deep_view() =~= Seq::empty());
            r
        },
        Some(p) => {
            if v.len() == 0 {
                let r = collect_completions(p, "", v, 0, frozen);
                proof {
                    reveal_strlit("");
                    assert(""@ =~= Seq::<char>::empty());
                    assert(v.deep_view().take(0) =~= Seq::empty());
                }
                r
            } else {
                let last = v.len() - 1;
                let r = collect_completions(p, v[last].as_str(), v, last, frozen);
                proof {
                    assert(v.deep_view().take(last as int) =~= v.deep_view().drop_last());
                }
                r
            }
        },
    }
}

/// Completes the last of several pin names.
pub fn complete_pins(pins: Option<&NixPins>, v: &Vec<String>) -> (r: Vec<(String, Option<String>)>)
    ensures
        r.deep_view() == match pins {
            None => Seq::empty(),
            Some(p) => as_candidates(
                completions(p@, incomplete_word(v.deep_view()), finished_words(v.deep_view()), None),
            ),
        },
{
    complete_names(pins, v, None)
}

/// Completes the last of several pin names among the pins that are frozen
/// (`is_frozen`) or not.
pub fn complete_frozen(pins: Option<&NixPins>, is_frozen: bool, v: &Vec<String>) -> (r: Vec<
    (String, Option<String>),
>)
    ensures
        r.deep_view() == match pins {
            None => Seq::empty(),
            Some(p) => as_candidates(
                completions(
                    p@,
                    incomplete_word(v.deep_view()),
                    finished_words(v.deep_view()),
                    Some(is_frozen),
                ),
            ),
        },
{
    complete_names(pins, v, Some(is_frozen))
}

} // verus!
