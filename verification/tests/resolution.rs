use bwenv::cli::{Args, Cli};
use bwenv::config::{resolve, Config, ConfigError, Profile};
use bwenv::kv::ProcessEnv;

const STAGING_PROJECT: &str = "11111111-1111-1111-1111-111111111111";
const DEV_PROJECT: &str = "22222222-2222-2222-2222-222222222222";

fn env_of(pairs: &[(&str, &str)]) -> ProcessEnv {
    let mut env = ProcessEnv::new();
    for (name, value) in pairs {
        env.push_var(name.to_string(), value.to_string());
    }
    env
}

fn staging_config() -> Config {
    Config {
        project: None,
        environment: vec!["ENV_A".to_string(), "ENV_B".to_string()],
        profiles: vec![(
            "staging".to_string(),
            Profile { project: Some(STAGING_PROJECT.to_string()) },
        )],
    }
}

#[test]
fn single_match_resolves_its_profile() {
    let config = staging_config();
    let env = env_of(&[("ENV_B", "staging"), ("OTHER", "x")]);
    let r = resolve(&config, &env);
    assert_eq!(r.unwrap().as_text(), STAGING_PROJECT);
}

#[test]
fn earliest_listed_variable_wins() {
    let config = Config {
        project: None,
        environment: vec!["ENV_A".to_string(), "ENV_B".to_string()],
        profiles: vec![
            ("dev".to_string(), Profile { project: Some(DEV_PROJECT.to_string()) }),
            ("staging".to_string(), Profile { project: Some(STAGING_PROJECT.to_string()) }),
        ],
    };
    let env = env_of(&[("ENV_B", "staging"), ("ENV_A", "dev")]);
    let r = resolve(&config, &env);
    assert_eq!(r.unwrap().as_text(), DEV_PROJECT);
}

#[test]
fn no_set_variable_means_no_active_profile() {
    let config = staging_config();
    let env = env_of(&[("UNRELATED", "staging")]);
    let r = resolve(&config, &env);
    assert!(matches!(r, Err(ConfigError::NoActiveProfile)));
}

#[test]
fn empty_environment_list_is_rejected() {
    let config = Config { project: None, environment: vec![], profiles: vec![] };
    let env = env_of(&[("ENV_A", "staging")]);
    let r = resolve(&config, &env);
    assert!(matches!(r, Err(ConfigError::MissingEnvironmentList)));
}

#[test]
fn unknown_profile_is_reported_by_name() {
    let config = staging_config();
    let env = env_of(&[("ENV_A", "prod")]);
    match resolve(&config, &env) {
        Err(ConfigError::UnknownProfile(name)) => assert_eq!(name, "prod"),
        _ => panic!("expected an unknown-profile error"),
    }
}

#[test]
fn profile_without_override_falls_back_to_top_level() {
    let config = Config {
        project: Some(STAGING_PROJECT.to_string()),
        environment: vec!["ENV_A".to_string()],
        profiles: vec![("staging".to_string(), Profile { project: None })],
    };
    let env = env_of(&[("ENV_A", "staging")]);
    let r = resolve(&config, &env);
    assert_eq!(r.unwrap().as_text(), STAGING_PROJECT);
}

#[test]
fn both_projects_absent_is_missing_project() {
    let config = Config {
        project: None,
        environment: vec!["ENV_A".to_string()],
        profiles: vec![("staging".to_string(), Profile { project: None })],
    };
    let env = env_of(&[("ENV_A", "staging")]);
    let r = resolve(&config, &env);
    assert!(matches!(r, Err(ConfigError::MissingProject)));
}

#[test]
fn non_uuid_project_is_rejected() {
    let config = Config {
        project: None,
        environment: vec!["ENV_A".to_string()],
        profiles: vec![(
            "staging".to_string(),
            Profile { project: Some("not-a-uuid".to_string()) },
        )],
    };
    let env = env_of(&[("ENV_A", "staging")]);
    match resolve(&config, &env) {
        Err(ConfigError::InvalidProject(text)) => assert_eq!(text, "not-a-uuid"),
        _ => panic!("expected an invalid-project error"),
    }
}

#[test]
fn resolution_is_deterministic() {
    let config = staging_config();
    let env = env_of(&[("ENV_B", "staging")]);
    let first = resolve(&config, &env);
    let second = resolve(&config, &env);
    assert_eq!(
        first.unwrap().as_text(),
        second.unwrap().as_text(),
    );
}

#[test]
fn profile_value_is_taken_from_the_variable() {
    // The profile name is the set variable's value, not the variable's name.
    let config = staging_config();
    let env = env_of(&[("ENV_A", "staging")]);
    let r = resolve(&config, &env);
    assert_eq!(r.unwrap().as_text(), STAGING_PROJECT);
}

#[test]
fn process_env_lookup_finds_the_first_pair() {
    let env = env_of(&[("NAME", "first"), ("NAME", "second")]);
    assert_eq!(env.get(&"NAME".to_string()), Some(&"first".to_string()));
    assert_eq!(env.get(&"OTHER".to_string()), None);
}

#[test]
fn undashed_uuid_text_is_accepted_too() {
    // uuid::Uuid::parse_str takes the plain 32-digit form as well.
    let config = Config {
        project: None,
        environment: vec!["ENV_A".to_string()],
        profiles: vec![(
            "staging".to_string(),
            Profile { project: Some("11111111111111111111111111111111".to_string()) },
        )],
    };
    let env = env_of(&[("ENV_A", "staging")]);
    let r = resolve(&config, &env);
    assert_eq!(r.unwrap().as_text(), "11111111111111111111111111111111");
}

#[test]
fn get_program_with_no_trailing_words_is_none() {
    let cli = Cli::new(Args { token: "t".to_string(), profile: None, slop: vec![] });
    assert!(cli.get_program().is_none());
}

#[test]
fn get_program_splits_program_and_arguments() {
    let cli = Cli::new(Args {
        token: "t".to_string(),
        profile: None,
        slop: vec!["echo".to_string(), "-n".to_string(), "hello".to_string()],
    });
    let (program, args) = cli.get_program().unwrap();
    assert_eq!(program, "echo");
    assert_eq!(args, vec!["-n".to_string(), "hello".to_string()]);
}
