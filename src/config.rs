use git2::Config as GitConfig;
use vstd::prelude::*;

verus! {

/// Provisioning defaults, resolved once from the configuration store.
#[derive(Debug)]
pub struct Config {
    /// `user.name`: the fallback author.
    pub user_name: Option<String>,
    /// `ghq.root`: the directory that holds every repository.
    pub ghq_root: Option<String>,
    /// `mkrepo.service`: the host segment used when none is given.
    pub mkrepo_service: String,
    /// `mkrepo.username`: the author used when none is given.
    pub mkrepo_username: Option<String>,
}

/// The view of an optional string.
pub open spec fn string_opt(o: Option<String>) -> Option<Seq<char>> {
    match o {
        Some(s) => Some(s@),
        None => None,
    }
}

/// The view of an optional string slice.
pub open spec fn str_opt(o: Option<&str>) -> Option<Seq<char>> {
    match o {
        Some(s) => Some(s@),
        None => None,
    }
}

/// The mathematical value of a `Config`.
pub struct ConfigView {
    pub user_name: Option<Seq<char>>,
    pub ghq_root: Option<Seq<char>>,
    pub mkrepo_service: Seq<char>,
    pub mkrepo_username: Option<Seq<char>>,
}

impl View for Config {
    type V = ConfigView;

    open spec fn view(&self) -> ConfigView {
        ConfigView {
            user_name: string_opt(self.user_name),
            ghq_root: string_opt(self.ghq_root),
            mkrepo_service: self.mkrepo_service@,
            mkrepo_username: string_opt(self.mkrepo_username),
        }
    }
}

/// One entry of the configuration store. Its name or its value is absent
/// where the store holds none that reads as text.
#[derive(Debug)]
pub struct Setting {
    pub name: Option<String>,
    pub value: Option<String>,
}

/// Why no configuration could be resolved.
#[derive(Debug, PartialEq, Eq, Clone, Copy, Structural)]
pub enum FailLoadGitConfigError {
    /// The configuration store could not be opened or read.
    LoadError,
    /// A value of the store cannot be used as its key asks: a root given as a
    /// bare `~`.
    ParseError,
    /// The program behind the store could not be run.
    FailGitCommandExecuteError,
    /// The store names no default service (`mkrepo.service`).
    NotFoundDefaultServiceSetting,
}

impl FailLoadGitConfigError {
    /// A sentence that tells a user what went wrong.
    pub fn description(&self) -> &'static str {
        match self {
            FailLoadGitConfigError::LoadError => "fail load default git config",
            FailLoadGitConfigError::ParseError => "fail git config value parse",
            FailLoadGitConfigError::FailGitCommandExecuteError => "fail git command execute error",
            FailLoadGitConfigError::NotFoundDefaultServiceSetting => "Not found default service setting",
        }
    }
}

impl From<git2::Error> for FailLoadGitConfigError {
    /// A store that git2 could not read is a load error.
    fn from(_e: git2::Error) -> FailLoadGitConfigError {
        FailLoadGitConfigError::LoadError
    }
}

impl vstd::std_specs::convert::FromSpecImpl<git2::Error> for FailLoadGitConfigError {
    open spec fn obeys_from_spec() -> bool {
        true
    }

    open spec fn from_spec(v: git2::Error) -> FailLoadGitConfigError {
        FailLoadGitConfigError::LoadError
    }
}

/// The value of the first entry named `key` that has a value.
pub open spec fn first_value(entries: Seq<Option<Setting>>, key: Seq<char>) -> Option<Seq<char>>
    decreases entries.len(),
{
    if entries.len() == 0 {
        None
    } else if entries[0] matches Some(s) && s.name matches Some(n) && s.value matches Some(v)
        && n@ == key {
        Some(entries[0]->Some_0.value->Some_0@)
    } else {
        first_value(entries.drop_first(), key)
    }
}

/// Whether a root is the bare home shorthand, which is not supported.
pub open spec fn is_bare_tilde(path: Seq<char>) -> bool {
    path == seq!['~']
}

/// The configuration that the entries of a store resolve to, before the
/// home shorthand of its root is expanded.
pub open spec fn resolved_config(entries: Seq<Option<Setting>>) -> Result<
    ConfigView,
    FailLoadGitConfigError,
> {
    let service = first_value(entries, "mkrepo.service"@);
    let root = first_value(entries, "ghq.root"@);
    if service is None {
        Err(FailLoadGitConfigError::NotFoundDefaultServiceSetting)
    } else if root matches Some(r) && is_bare_tilde(r) {
        Err(FailLoadGitConfigError::ParseError)
    } else {
        Ok(
            ConfigView {
                user_name: first_value(entries, "user.name"@),
                ghq_root: root,
                mkrepo_service: service->0,
                mkrepo_username: first_value(entries, "mkrepo.username"@),
            },
        )
    }
}

/// The view of a resolved configuration, or of the error that stands for it.
pub open spec fn config_result_view(r: Result<Config, FailLoadGitConfigError>) -> Result<
    ConfigView,
    FailLoadGitConfigError,
> {
    match r {
        Ok(c) => Ok(c@),
        Err(e) => Err(e),
    }
}

/// Whether shellexpand treats the start of `path` as the home shorthand:
/// `~` alone, or followed by a separator.
pub open spec fn tilde_prefixed(path: Seq<char>) -> bool {
    &&& path.len() > 0
    &&& path[0] == '~'
    &&& (path.len() == 1 || path[1] == '/' || path[1] == '\\')
}

#[verifier::external_type_specification]
#[verifier::external_body]
pub struct ExGitConfig(GitConfig);

#[verifier::external_type_specification]
#[verifier::external_body]
pub struct ExGitError(git2::Error);

/// Relies on git2::Config::entries, git2::ConfigEntries::next and
/// git2::ConfigEntry's name, has_value and value: every entry of the store,
/// in the store's order; one that cannot be read is `None`, and a value that
/// the store leaves undefined is absent (`value` would panic on it). What the
/// store holds is on disk, so nothing is stated of it.
#[verifier::external_body]
fn read_entries(config: &GitConfig) -> (r: Result<Vec<Option<Setting>>, git2::Error>) {
    let mut entries = config.entries(None)?;
    let mut out = Vec::new();
    while let Some(entry) = entries.next() {
        out.push(entry.ok().map(|e| Setting {
            name: e.name().ok().map(String::from),
            value: if e.has_value() { e.value().ok().map(String::from) } else { None },
        }));
    }
    Ok(out)
}

/// Relies on shellexpand::tilde: a path that does not start with the home
/// shorthand comes back unchanged; one that does has the `~` replaced by the
/// home directory, or comes back unchanged where that is unknown (or, off
/// Windows, where a backslash follows the `~`).
#[verifier::external_body]
pub(crate) fn expand_tilde(path: &str) -> (r: String)
    ensures
        !tilde_prefixed(path@) ==> r@ == path@,
        tilde_prefixed(path@) ==> r@ == path@ || exists|home: Seq<char>|
            r@ == home + path@.drop_first(),
{
    shellexpand::tilde(path).into_owned()
}

/// The value of the first entry named `key_name` that has one.
pub fn fetch_value(config: &Vec<Option<Setting>>, key_name: &str) -> (r: Option<String>)
    ensures
        string_opt(r) == first_value(config@, key_name@),
{
    let key = key_name.to_owned();
    let mut i: usize = 0;
    assert(config@.subrange(0, config@.len() as int) =~= config@);
    while i < config.len()
        invariant
            i <= config@.len(),
            key@ == key_name@,
            first_value(config@, key_name@) == first_value(config@.subrange(i as int, config@.len() as int), key_name@),
        decreases config.len() - i,
    {
        assert(config@.subrange(i + 1, config@.len() as int) =~= config@.subrange(i as int, config@.len() as int).drop_first());
        match &config[i] {
            Some(setting) => match (&setting.name, &setting.value) {
                (Some(n), Some(v)) => {
                    if *n == key {
                        return Some(v.clone());
                    }
                },
                _ => {},
            },
            None => {},
        }
        i = i + 1;
    }
    None
}

/// Resolves a configuration from the entries of a store: `mkrepo.service`
/// is required, `ghq.root` may not be a bare `~`, the rest is optional.
/// The root is kept as written.
pub fn resolve_config(entries: &Vec<Option<Setting>>) -> (r: Result<Config, FailLoadGitConfigError>)
    ensures
        config_result_view(r) == resolved_config(entries@),
{
    let service = match fetch_value(entries, "mkrepo.service") {
        Some(s) => s,
        None => return Err(FailLoadGitConfigError::NotFoundDefaultServiceSetting),
    };
    let root = fetch_value(entries, "ghq.root");
    match &root {
        Some(r) => {
            if r.as_str().unicode_len() == 1 && r.as_str().get_char(0) == '~' {
                assert(r@ =~= seq!['~']);
                return Err(FailLoadGitConfigError::ParseError);
            }
        },
        None => {},
    }
    Ok(
        Config {
            user_name: fetch_value(entries, "user.name"),
            ghq_root: root,
            mkrepo_service: service,
            mkrepo_username: fetch_value(entries, "mkrepo.username"),
        },
    )
}

/// `config` with the home shorthand of its root expanded.
pub fn expand_root(config: Config) -> (r: Config)
    ensures
        r.user_name == config.user_name,
        r.mkrepo_service == config.mkrepo_service,
        r.mkrepo_username == config.mkrepo_username,
        config.ghq_root is None ==> r.ghq_root is None,
        config.ghq_root matches Some(root) ==> r.ghq_root matches Some(e) && (!tilde_prefixed(root@)
            ==> e@ == root@) && (e@ == root@ || exists|home: Seq<char>|
            e@ == home + root@.drop_first()),
{
    let Config { user_name, ghq_root, mkrepo_service, mkrepo_username } = config;
    let ghq_root = match ghq_root {
        Some(root) => Some(expand_tilde(root.as_str())),
        None => None,
    };
    Config { user_name, ghq_root, mkrepo_service, mkrepo_username }
}

/// Resolves the configuration from a git configuration store, with the home
/// shorthand of the root expanded.
pub fn load_git_config(config: GitConfig) -> (r: Result<Config, FailLoadGitConfigError>)
    ensures
        r matches Err(e) ==> e is LoadError || e is ParseError || e is NotFoundDefaultServiceSetting,
{
    let entries = match read_entries(&config) {
        Ok(entries) => entries,
        Err(e) => return Err(FailLoadGitConfigError::from(e)),
    };
    match resolve_config(&entries) {
        Ok(c) => Ok(expand_root(c)),
        Err(e) => Err(e),
    }
}

} // verus!
