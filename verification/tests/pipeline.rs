use bwenv::config::{resolve, Config, ConfigError, Profile};
use bwenv::fetch::{FetchAction, FetchFailure, SecretFetcher, SecretId};
use bwenv::kv::ProcessEnv;
use bwenv::launch::{
    ForwardAction, ForwardTask, LaunchSpec, Launcher, ReadEvent, StreamKind,
};
use bwenv::orchestrate::{
    after_fetch, after_resolution, final_exit_code, FetchDecision, ResolveDecision,
    FAILURE_EXIT_CODE,
};
use bwenv::secrets::{Secret, SecretsMap};

const STAGING_PROJECT: &str = "11111111-1111-1111-1111-111111111111";

fn secret(key: &str, value: &str) -> Secret {
    Secret { key: key.to_string(), value: value.to_string() }
}

fn id(raw: &str) -> SecretId {
    SecretId { raw: raw.to_string() }
}

#[test]
fn secrets_map_later_entry_overwrites_earlier() {
    let mut m = SecretsMap::new();
    m.insert("DB_URL".to_string(), "first".to_string());
    m.insert("DB_URL".to_string(), "second".to_string());
    assert_eq!(m.get(&"DB_URL".to_string()), Some(&"second".to_string()));
}

#[test]
fn secrets_map_missing_key_is_none() {
    let mut m = SecretsMap::new();
    m.insert("A".to_string(), "1".to_string());
    assert_eq!(m.get(&"B".to_string()), None);
}

#[test]
fn child_env_secrets_win_over_inherited() {
    let mut secrets = SecretsMap::new();
    secrets.insert("PATH".to_string(), "injected".to_string());
    let spec = LaunchSpec { program: "echo".to_string(), args: vec![], extra_env: secrets };
    let inherited = vec![
        ("PATH".to_string(), "inherited".to_string()),
        ("HOME".to_string(), "/root".to_string()),
    ];
    let env = spec.child_env(&inherited);
    assert_eq!(env.get(&"PATH".to_string()), Some(&"injected".to_string()));
    assert_eq!(env.get(&"HOME".to_string()), Some(&"/root".to_string()));
}

#[test]
fn fetch_happy_path_assembles_all_secrets() {
    let mut f = SecretFetcher::new();
    assert_eq!(f.next_action(), FetchAction::Login);
    f.on_login(true);
    assert_eq!(f.next_action(), FetchAction::List);
    f.on_listed(Some(vec![id("id-1"), id("id-2")]));
    assert_eq!(f.next_action(), FetchAction::Get);
    assert_eq!(f.current_id().raw, "id-1");
    f.on_secret(Some(secret("K1", "V1")));
    assert_eq!(f.next_action(), FetchAction::Get);
    assert_eq!(f.current_id().raw, "id-2");
    f.on_secret(Some(secret("K2", "V2")));
    assert_eq!(f.next_action(), FetchAction::Finish);
    assert!(f.is_done());
    let m = f.take_secrets();
    assert_eq!(m.get(&"K1".to_string()), Some(&"V1".to_string()));
    assert_eq!(m.get(&"K2".to_string()), Some(&"V2".to_string()));
}

#[test]
fn fetch_fails_fast_on_any_single_get() {
    let mut f = SecretFetcher::new();
    f.on_login(true);
    f.on_listed(Some(vec![id("id-1"), id("id-2"), id("id-3")]));
    f.on_secret(Some(secret("K1", "V1")));
    f.on_secret(None);
    assert!(f.is_failed());
    assert!(!f.is_done());
    assert_eq!(f.failure_kind(), FetchFailure::Get);
    assert_eq!(f.next_action(), FetchAction::Abort);
}

#[test]
fn fetch_login_failure_is_terminal() {
    let mut f = SecretFetcher::new();
    f.on_login(false);
    assert!(f.is_failed());
    assert_eq!(f.failure_kind(), FetchFailure::Auth);
    assert_eq!(f.next_action(), FetchAction::Abort);
}

#[test]
fn fetch_list_failure_is_terminal() {
    let mut f = SecretFetcher::new();
    f.on_login(true);
    f.on_listed(None);
    assert!(f.is_failed());
    assert_eq!(f.failure_kind(), FetchFailure::List);
}

#[test]
fn fetch_empty_listing_is_a_valid_empty_result() {
    let mut f = SecretFetcher::new();
    f.on_login(true);
    f.on_listed(Some(vec![]));
    assert!(f.is_done());
    let m = f.take_secrets();
    assert_eq!(m.get(&"ANY".to_string()), None);
}

#[test]
fn fetch_duplicate_keys_last_retrieval_wins() {
    let mut f = SecretFetcher::new();
    f.on_login(true);
    f.on_listed(Some(vec![id("id-1"), id("id-2")]));
    f.on_secret(Some(secret("K", "old")));
    f.on_secret(Some(secret("K", "new")));
    assert!(f.is_done());
    let m = f.take_secrets();
    assert_eq!(m.get(&"K".to_string()), Some(&"new".to_string()));
}

#[test]
fn forwarding_keeps_chunk_order() {
    let mut task = ForwardTask::new();
    let mut out = String::new();
    for chunk in ["A", "B", "C"] {
        match task.on_read(ReadEvent::Chunk(chunk.as_bytes().to_vec())) {
            ForwardAction::Emit(text) => out.push_str(&text),
            _ => panic!("a decodable chunk must be emitted"),
        }
    }
    assert_eq!(out, "ABC");
    assert!(matches!(task.on_read(ReadEvent::Eof), ForwardAction::Stop));
    assert!(task.is_done());
}

#[test]
fn forwarding_drops_undecodable_chunks() {
    let mut task = ForwardTask::new();
    let a = task.on_read(ReadEvent::Chunk(vec![0xff, 0xfe]));
    assert!(matches!(a, ForwardAction::DropChunk));
    assert!(!task.is_done());
    match task.on_read(ReadEvent::Chunk(b"ok".to_vec())) {
        ForwardAction::Emit(text) => assert_eq!(text, "ok"),
        _ => panic!("the stream must survive a dropped chunk"),
    }
}

#[test]
fn forwarding_read_failure_stops_with_a_warning() {
    let mut task = ForwardTask::new();
    let a = task.on_read(ReadEvent::ReadFailed);
    assert!(matches!(a, ForwardAction::StopWithWarning));
    assert!(task.is_done());
}

#[test]
fn exit_code_is_propagated_verbatim() {
    let mut stdout_task = ForwardTask::new();
    let mut stderr_task = ForwardTask::new();
    let mut launcher = Launcher::new();
    launcher.begin_spawn();
    launcher.on_spawn_result(true);
    assert!(matches!(stdout_task.on_read(ReadEvent::Eof), ForwardAction::Stop));
    launcher.on_stream_done(StreamKind::Stdout);
    assert!(matches!(stderr_task.on_read(ReadEvent::Eof), ForwardAction::Stop));
    launcher.on_stream_done(StreamKind::Stderr);
    launcher.on_child_exit(7);
    assert!(launcher.is_exited());
    assert_eq!(launcher.exit_code(), 7);
    assert_eq!(final_exit_code(&launcher), 7);
}

#[test]
fn spawn_failure_reports_the_fixed_code() {
    let mut launcher = Launcher::new();
    launcher.begin_spawn();
    launcher.on_spawn_result(false);
    assert!(launcher.spawn_failed());
    assert_eq!(final_exit_code(&launcher), FAILURE_EXIT_CODE);
    assert_ne!(FAILURE_EXIT_CODE, 0);
}

#[test]
fn end_to_end_staging_resolution_reaches_the_fetch() {
    let config = Config {
        project: None,
        environment: vec!["ENV_A".to_string(), "ENV_B".to_string()],
        profiles: vec![(
            "staging".to_string(),
            Profile { project: Some(STAGING_PROJECT.to_string()) },
        )],
    };
    let mut env = ProcessEnv::new();
    env.push_var("ENV_B".to_string(), "staging".to_string());
    match after_resolution(resolve(&config, &env)) {
        ResolveDecision::Fetch(p) => assert_eq!(p.as_text(), STAGING_PROJECT),
        ResolveDecision::Quit(_) => panic!("a resolved project must be fetched for"),
    }
}

#[test]
fn end_to_end_unset_variables_quit_before_the_store() {
    let config = Config {
        project: None,
        environment: vec!["ENV_A".to_string(), "ENV_B".to_string()],
        profiles: vec![(
            "staging".to_string(),
            Profile { project: Some(STAGING_PROJECT.to_string()) },
        )],
    };
    let env = ProcessEnv::new();
    let r = resolve(&config, &env);
    assert!(matches!(r, Err(ConfigError::NoActiveProfile)));
    match after_resolution(r) {
        ResolveDecision::Quit(code) => {
            assert_eq!(code, FAILURE_EXIT_CODE);
            assert_ne!(code, 0);
        },
        ResolveDecision::Fetch(_) => panic!("a failed resolution must quit"),
    }
}

#[test]
fn failed_fetch_quits_instead_of_launching() {
    let mut f = SecretFetcher::new();
    f.on_login(true);
    f.on_listed(Some(vec![id("id-1")]));
    f.on_secret(None);
    match after_fetch(f) {
        FetchDecision::Quit(code) => assert_eq!(code, FAILURE_EXIT_CODE),
        FetchDecision::Launch(_) => panic!("a failed fetch must not launch"),
    }
}

#[test]
fn completed_fetch_hands_its_secrets_to_the_launch() {
    let mut f = SecretFetcher::new();
    f.on_login(true);
    f.on_listed(Some(vec![id("id-1")]));
    f.on_secret(Some(secret("K", "V")));
    match after_fetch(f) {
        FetchDecision::Launch(m) => {
            assert_eq!(m.get(&"K".to_string()), Some(&"V".to_string()));
        },
        FetchDecision::Quit(_) => panic!("a completed fetch must launch"),
    }
}
