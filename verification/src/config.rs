use crate::kv::{find, find_from, ProcessEnv};
use crate::project::{uuid_accepts, ProjectId};
use vstd::prelude::*;

verus! {

/// A named configuration variant; it may override the top-level project.
pub struct Profile {
    pub project: Option<String>,
}

/// The loaded configuration: an optional top-level project, the ordered list
/// of environment-variable names that select the active profile, and the
/// profiles by name.
pub struct Config {
    pub project: Option<String>,
    pub environment: Vec<String>,
    pub profiles: Vec<(String, Profile)>,
}

/// Why resolution failed.
#[derive(Debug)]
pub enum ConfigError {
    /// The configuration lists no environment-variable names at all.
    MissingEnvironmentList,
    /// None of the listed environment variables is set.
    NoActiveProfile,
    /// The selected profile name is not in the configuration.
    UnknownProfile(String),
    /// Neither the profile nor the configuration names a project.
    MissingProject,
    /// The resolved project identifier is not a UUID.
    InvalidProject(String),
}

/// The abstract outcome of a resolution, over character sequences.
pub enum Resolution {
    Project(Seq<char>),
    MissingEnvironmentList,
    NoActiveProfile,
    UnknownProfile(Seq<char>),
    MissingProject,
    InvalidProject(Seq<char>),
}

/// The abstract content of an optional string.
pub open spec fn opt_view(o: Option<String>) -> Option<Seq<char>> {
    match o {
        Some(s) => Some(s@),
        None => None,
    }
}

/// The profile table as abstract pairs of name and optional project override.
pub open spec fn profile_views(s: Seq<(String, Profile)>) -> Seq<(Seq<char>, Option<Seq<char>>)> {
    s.map_values(|p: (String, Profile)| (p.0@, opt_view(p.1.project)))
}

/// The value of the first name at index `i` or later that the environment sets.
pub open spec fn first_active_from(names: Seq<String>, env: ProcessEnv, i: int) -> Option<Seq<char>>
    decreases names.len() - i,
{
    if i < 0 || i >= names.len() {
        None
    } else if env.value_of(names[i]@) is Some {
        env.value_of(names[i]@)
    } else {
        first_active_from(names, env, i + 1)
    }
}

/// The value of the first listed name that the environment sets: that value
/// is the active profile's name.
pub open spec fn first_active(names: Seq<String>, env: ProcessEnv) -> Option<Seq<char>> {
    first_active_from(names, env, 0)
}

/// The outcome of resolution once the active profile's name is known: look
/// the profile up, take its project or fall back to the top-level one, and
/// demand a UUID.
pub open spec fn profile_resolution(config: Config, name: Seq<char>) -> Resolution {
    match find(profile_views(config.profiles@), name) {
        None => Resolution::UnknownProfile(name),
        Some(override_project) => match (if override_project is Some {
            override_project
        } else {
            opt_view(config.project)
        }) {
            None => Resolution::MissingProject,
            Some(p) => if uuid_accepts(p) {
                Resolution::Project(p)
            } else {
                Resolution::InvalidProject(p)
            },
        },
    }
}

/// What resolution returns, as a function of the configuration and the
/// captured environment alone.
pub open spec fn resolve_spec(config: Config, env: ProcessEnv) -> Resolution {
    if config.environment@.len() == 0 {
        Resolution::MissingEnvironmentList
    } else {
        match first_active(config.environment@, env) {
            None => Resolution::NoActiveProfile,
            Some(name) => profile_resolution(config, name),
        }
    }
}

/// The abstract content of an executable resolution result.
pub open spec fn resolution_of(r: Result<ProjectId, ConfigError>) -> Resolution {
    match r {
        Ok(p) => Resolution::Project(p@),
        Err(ConfigError::MissingEnvironmentList) => Resolution::MissingEnvironmentList,
        Err(ConfigError::NoActiveProfile) => Resolution::NoActiveProfile,
        Err(ConfigError::UnknownProfile(n)) => Resolution::UnknownProfile(n@),
        Err(ConfigError::MissingProject) => Resolution::MissingProject,
        Err(ConfigError::InvalidProject(t)) => Resolution::InvalidProject(t@),
    }
}

/// The value of the first listed environment variable that is set, which
/// names the active profile.
pub fn get_profile_from_env(names: &Vec<String>, env: &ProcessEnv) -> (r: Option<String>)
    ensures
        match r {
            Some(v) => first_active(names@, *env) == Some(v@),
            None => first_active(names@, *env) is None,
        },
{
    let mut i: usize = 0;
    while i < names.len()
        invariant
            i <= names.len(),
            first_active(names@, *env) == first_active_from(names@, *env, i as int),
        decreases names.len() - i,
    {
        match env.get(&names[i]) {
            Some(v) => {
                return Some(v.clone());
            },
            None => {
                i += 1;
            },
        }
    }
    None
}

/// The profile stored under `name`, if any.
fn find_profile<'a>(profiles: &'a Vec<(String, Profile)>, name: &String) -> (r: Option<&'a Profile>)
    ensures
        match r {
            Some(p) => find(profile_views(profiles@), name@) == Some(opt_view(p.project)),
            None => find(profile_views(profiles@), name@) is None,
        },
{
    let mut i: usize = 0;
    while i < profiles.len()
        invariant
            i <= profiles.len(),
            find(profile_views(profiles@), name@) == find_from(
                profile_views(profiles@),
                name@,
                i as int,
            ),
        decreases profiles.len() - i,
    {
        let pair = &profiles[i];
        if pair.0 == *name {
            return Some(&pair.1);
        }
        i += 1;
    }
    None
}

/// Decide which project's secrets apply: take the value of the first listed
/// environment variable that is set as the active profile's name, look that
/// profile up, use its project or fall back to the top-level one, and accept
/// the result only if it is a UUID.
pub fn resolve(config: &Config, env: &ProcessEnv) -> (r: Result<ProjectId, ConfigError>)
    ensures
        resolution_of(r) == resolve_spec(*config, *env),
        r matches Ok(p) ==> p.wf(),
{
    if config.environment.len() == 0 {
        return Err(ConfigError::MissingEnvironmentList);
    }
    let name = match get_profile_from_env(&config.environment, env) {
        Some(n) => n,
        None => {
            return Err(ConfigError::NoActiveProfile);
        },
    };
    let profile = match find_profile(&config.profiles, &name) {
        Some(p) => p,
        None => {
            return Err(ConfigError::UnknownProfile(name));
        },
    };
    let project_text: String = match &profile.project {
        Some(t) => t.clone(),
        None => match &config.project {
            Some(t) => t.clone(),
            None => {
                return Err(ConfigError::MissingProject);
            },
        },
    };
    match ProjectId::parse(project_text) {
        Ok(p) => Ok(p),
        Err(t) => Err(ConfigError::InvalidProject(t)),
    }
}

/// When every name before index `i` is unset and the name at `i` is set, the
/// active profile is the value of the name at `i`.
proof fn lemma_first_active_at(names: Seq<String>, env: ProcessEnv, i: int)
    requires
        0 <= i < names.len(),
        env.value_of(names[i]@) is Some,
        forall|j: int| 0 <= j < i ==> env.value_of(#[trigger] names[j]@) is None,
    ensures
        first_active(names, env) == env.value_of(names[i]@),
    decreases i,
{
    if i > 0 {
        lemma_first_active_at(names.drop_first(), env, i - 1);
        assert(forall|j: int|
            0 <= j < i - 1 ==> names.drop_first()[j] == names[j + 1]);
        assert(first_active_from(names, env, 1) == first_active(names.drop_first(), env)) by {
            lemma_first_active_shift(names, env, 1);
        }
    }
}

/// Scanning `names` from index `i` is scanning the rest of the list from its
/// start.
proof fn lemma_first_active_shift(names: Seq<String>, env: ProcessEnv, i: int)
    requires
        0 < i <= names.len(),
    ensures
        first_active_from(names, env, i) == first_active(names.subrange(i, names.len() as int), env),
    decreases names.len() - i,
{
    let rest = names.subrange(i, names.len() as int);
    if i < names.len() {
        assert(rest[0] == names[i]);
        if env.value_of(names[i]@) is None {
            lemma_first_active_shift(names, env, i + 1);
            lemma_first_active_shift(rest, env, 1);
            assert(names.subrange(i + 1, names.len() as int) =~= rest.subrange(
                1,
                rest.len() as int,
            ));
        }
    }
}

/// When no listed name is set, no profile is active.
proof fn lemma_first_active_none(names: Seq<String>, env: ProcessEnv, i: int)
    requires
        0 <= i <= names.len(),
        forall|j: int| 0 <= j < names.len() ==> env.value_of(#[trigger] names[j]@) is None,
    ensures
        first_active_from(names, env, i) is None,
    decreases names.len() - i,
{
    if i < names.len() {
        lemma_first_active_none(names, env, i + 1);
    }
}

/// With a non-empty environment list and exactly one listed variable set,
/// resolution is decided by that variable's value alone: the outcome is the
/// one its profile implies.
pub proof fn lemma_resolve_single_match(config: Config, env: ProcessEnv, i: int)
    requires
        0 <= i < config.environment@.len(),
        env.value_of(config.environment@[i]@) is Some,
        forall|j: int|
            0 <= j < config.environment@.len() && j != i ==> env.value_of(
                #[trigger] config.environment@[j]@,
            ) is None,
    ensures
        resolve_spec(config, env) == profile_resolution(
            config,
            env.value_of(config.environment@[i]@)->0,
        ),
{
    lemma_first_active_at(config.environment@, env, i);
}

/// When several listed variables are set, the one earliest in the list wins,
/// whatever is set after it.
pub proof fn lemma_resolve_earliest_wins(config: Config, env: ProcessEnv, i: int)
    requires
        0 <= i < config.environment@.len(),
        env.value_of(config.environment@[i]@) is Some,
        forall|j: int| 0 <= j < i ==> env.value_of(#[trigger] config.environment@[j]@) is None,
    ensures
        first_active(config.environment@, env) == env.value_of(config.environment@[i]@),
        resolve_spec(config, env) == profile_resolution(
            config,
            env.value_of(config.environment@[i]@)->0,
        ),
{
    lemma_first_active_at(config.environment@, env, i);
}

/// With a non-empty environment list none of whose names is set, resolution
/// fails with `NoActiveProfile`, and no profile or project is ever looked at:
/// every configuration with that environment list fails the same way.
pub proof fn lemma_resolve_no_active_profile(config: Config, env: ProcessEnv)
    requires
        config.environment@.len() > 0,
        forall|j: int|
            0 <= j < config.environment@.len() ==> env.value_of(
                #[trigger] config.environment@[j]@,
            ) is None,
    ensures
        resolve_spec(config, env) == Resolution::NoActiveProfile,
        forall|other: Config|
            other.environment == config.environment ==> resolve_spec(other, env)
                == Resolution::NoActiveProfile,
{
    lemma_first_active_none(config.environment@, env, 0);
    assert forall|other: Config|
        other.environment == config.environment implies resolve_spec(other, env)
        == Resolution::NoActiveProfile by {
        lemma_first_active_none(other.environment@, env, 0);
    }
}

/// A profile without a project override falls back to the top-level project;
/// when both are absent, resolution fails with `MissingProject`.
pub proof fn lemma_resolve_project_fallback(config: Config, name: Seq<char>)
    requires
        find(profile_views(config.profiles@), name) == Some(Option::<Seq<char>>::None),
    ensures
        config.project is None ==> profile_resolution(config, name)
            == Resolution::MissingProject,
        config.project is Some && uuid_accepts(config.project->0@) ==> profile_resolution(
            config,
            name,
        ) == Resolution::Project(config.project->0@),
        config.project is Some && !uuid_accepts(config.project->0@) ==> profile_resolution(
            config,
            name,
        ) == Resolution::InvalidProject(config.project->0@),
{
}

/// Resolution is a pure function: identical configuration and environment
/// give an identical outcome.
pub proof fn lemma_resolve_deterministic(
    c1: Config,
    e1: ProcessEnv,
    c2: Config,
    e2: ProcessEnv,
)
    requires
        c1 == c2,
        e1 == e2,
    ensures
        resolve_spec(c1, e1) == resolve_spec(c2, e2),
{
}

} // verus!
