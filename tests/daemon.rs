use rusticbindings::config::{BackendConfig, RepositoryIdentity};
use rusticbindings::daemon::{
    assemble_validation, identity_from_decoded, refusal_error, settle, DaemonError, RepoOpts,
    RusticDaemonImpl,
};
use rusticbindings::lifecycle::{
    init_failure_outcome, required_states, CapabilityOutcome, LifecycleState, Operation, Refusal,
};
use rusticbindings::registry::{Session, SessionRegistry};
use rustic_backend::BackendOptions;
use rustic_core::RepositoryOptions;

fn request(backend: &str, repo: &str, password: &str) -> RepoOpts {
    RepoOpts {
        backend_opts_toml: backend.to_string(),
        repo_opts_toml: repo.to_string(),
        password: password.to_string(),
    }
}

fn identity(location: &str) -> RepositoryIdentity {
    RepositoryIdentity { location: location.to_string(), hot_location: None }
}

fn session_in(state: LifecycleState) -> Session {
    let mut s = Session::new(identity("/tmp/repo"));
    s.state = state;
    s
}

#[test]
fn validate_accepts_local_repository() {
    let daemon = RusticDaemonImpl::new();
    let r = daemon.validate_repo_opts(&request("repository = \"/tmp/repo\"\n", "", "test"));
    assert!(r.errors.is_empty());
    assert!(r.warnings.is_empty());
}

#[test]
fn validate_accepts_repository_options() {
    let daemon = RusticDaemonImpl::new();
    let r = daemon.validate_repo_opts(&request(
        "repository = \"/tmp/repo\"\nrepo-hot = \"/tmp/hot\"\n",
        "no-cache = true\n",
        "test",
    ));
    assert!(r.errors.is_empty());
}

#[test]
fn validate_reports_malformed_backend() {
    let daemon = RusticDaemonImpl::new();
    let r = daemon.validate_repo_opts(&request("repository = ", "", "test"));
    assert_eq!(r.errors.len(), 1);
    assert!(r.errors[0].starts_with("Invalid backend_opts_toml: "));
    assert!(r.errors[0].len() > "Invalid backend_opts_toml: ".len());
    assert!(r.warnings.is_empty());
}

#[test]
fn validate_reports_unknown_backend_field() {
    let daemon = RusticDaemonImpl::new();
    let r = daemon.validate_repo_opts(&request("kind = \"local\"\npath = \"/tmp/repo\"\n", "", "test"));
    assert_eq!(r.errors.len(), 1);
    assert!(r.errors[0].starts_with("Invalid backend_opts_toml: "));
}

#[test]
fn validate_reports_missing_repository() {
    let daemon = RusticDaemonImpl::new();
    let r = daemon.validate_repo_opts(&request("", "", "test"));
    assert_eq!(r.errors, vec!["Invalid backend_opts_toml: no repository given".to_string()]);
}

#[test]
fn validate_reports_both_documents_in_order() {
    let daemon = RusticDaemonImpl::new();
    let r = daemon.validate_repo_opts(&request("[[[", "no-cache = 3", "test"));
    assert_eq!(r.errors.len(), 2);
    assert!(r.errors[0].starts_with("Invalid backend_opts_toml: "));
    assert!(r.errors[1].starts_with("Invalid repo_opts_toml: "));
}

#[test]
fn validate_does_not_echo_secret_values() {
    let daemon = RusticDaemonImpl::new();
    let r = daemon.validate_repo_opts(&request(
        "repository = \"/tmp/repo\"",
        "password = \"hunter2\"",
        "test",
    ));
    assert_eq!(r.errors.len(), 1);
    assert!(r.errors[0].starts_with("Invalid repo_opts_toml: "));
    assert!(!r.errors[0].contains("hunter2"));
}

#[test]
fn assemble_prefixes_decoder_causes() {
    let backend: Result<BackendConfig, String> = Err("boom".to_string());
    let repository: Result<RepositoryOptions, String> = Err("bad field".to_string());
    let r = assemble_validation(&backend, &repository);
    assert_eq!(
        r.errors,
        vec![
            "Invalid backend_opts_toml: boom".to_string(),
            "Invalid repo_opts_toml: bad field".to_string()
        ]
    );
    let ok_backend: Result<BackendConfig, String> = Ok(BackendConfig {
        repository: Some("/tmp/repo".to_string()),
        repo_hot: None,
        options: BackendOptions::default(),
    });
    let ok_repository: Result<RepositoryOptions, String> = Ok(RepositoryOptions::default());
    let r = assemble_validation(&ok_backend, &ok_repository);
    assert!(r.errors.is_empty());
}

#[test]
fn identity_from_decoded_requires_repository() {
    let backend: Result<BackendConfig, String> = Ok(BackendConfig {
        repository: None,
        repo_hot: Some("/tmp/hot".to_string()),
        options: BackendOptions::default(),
    });
    let repository: Result<RepositoryOptions, String> = Ok(RepositoryOptions::default());
    match identity_from_decoded(backend, &repository) {
        Err(DaemonError::Configuration(m)) => {
            assert_eq!(m, vec!["Invalid backend_opts_toml: no repository given".to_string()])
        }
        other => panic!("unexpected {:?}", other.is_ok()),
    }
}

#[test]
fn resolve_request_yields_identity() {
    let daemon = RusticDaemonImpl::new();
    let req = request("repository = \"/tmp/repo\"\nrepo-hot = \"/tmp/hot\"\n", "", "test");
    let (id, config) = daemon.resolve_request(&req).ok().unwrap();
    assert_eq!(id.location, "/tmp/repo");
    assert_eq!(id.hot_location, Some("/tmp/hot".to_string()));
    assert_eq!(config.repository, Some("/tmp/repo".to_string()));
}

#[test]
fn identity_ignores_password_and_options() {
    let daemon = RusticDaemonImpl::new();
    let a = request("repository = \"/tmp/repo\"\n", "", "one");
    let b = request("repository = \"/tmp/repo\"\n[options]\ntimeout = \"5s\"\n", "no-cache = true", "two");
    let (ia, _) = daemon.resolve_request(&a).ok().unwrap();
    let (ib, _) = daemon.resolve_request(&b).ok().unwrap();
    assert!(ia.same(&ib));
    let c = request("repository = \"/tmp/other\"\n", "", "one");
    let (ic, _) = daemon.resolve_request(&c).ok().unwrap();
    assert!(!ia.same(&ic));
}

#[test]
fn resolve_request_rejects_invalid_configuration() {
    let daemon = RusticDaemonImpl::new();
    match daemon.resolve_request(&request("repository = 1", "", "test")) {
        Err(DaemonError::Configuration(m)) => {
            assert_eq!(m.len(), 1);
            assert!(m[0].starts_with("Invalid backend_opts_toml: "));
        }
        other => panic!("unexpected {:?}", other.is_ok()),
    }
}

#[test]
fn parse_repo_opts_accepts_and_rejects() {
    let daemon = RusticDaemonImpl::new();
    let settings = daemon.parse_repo_opts(request("", "no-cache = true", "test")).ok().unwrap();
    assert_eq!(settings.password, "test");
    assert!(settings.options.no_cache);
    match daemon.parse_repo_opts(request("", "no-cache = \"yes\"", "test")) {
        Err(DaemonError::Configuration(m)) => {
            assert_eq!(m.len(), 1);
            assert!(m[0].starts_with("Invalid repo_opts_toml: "));
        }
        other => panic!("unexpected {:?}", other.is_ok()),
    }
}

#[test]
fn registry_reuses_slot_for_same_identity() {
    let mut registry = SessionRegistry::new();
    assert_eq!(registry.resolve(&identity("/tmp/a")), (0, true));
    assert_eq!(registry.resolve(&identity("/tmp/b")), (1, true));
    assert_eq!(registry.resolve(&identity("/tmp/a")), (0, false));
    assert_eq!(registry.len(), 2);
    assert_eq!(registry.lookup(&identity("/tmp/b")), Some(1));
    assert_eq!(registry.lookup(&identity("/tmp/c")), None);
    let hot = RepositoryIdentity {
        location: "/tmp/a".to_string(),
        hot_location: Some("/tmp/h".to_string()),
    };
    assert_eq!(registry.resolve(&hot), (2, true));
}

#[test]
fn distinct_identities_progress_independently() {
    let mut a = Session::new(identity("/tmp/a"));
    let b = Session::new(identity("/tmp/b"));
    a.complete(Operation::Exists, CapabilityOutcome::Present(false));
    assert_eq!(a.state, LifecycleState::Unknown);
    a.complete(Operation::Init, CapabilityOutcome::Completed);
    assert_eq!(a.state, LifecycleState::Initialized);
    assert_eq!(b.state, LifecycleState::Unknown);
    assert_eq!(b.begin(Operation::Init, 0), Ok(()));
}

#[test]
fn exists_repeated_gives_same_state() {
    let mut s = Session::new(identity("/tmp/repo"));
    s.complete(Operation::Exists, CapabilityOutcome::Present(true));
    assert_eq!(s.state, LifecycleState::Unknown);
    s.complete(Operation::Exists, CapabilityOutcome::Present(true));
    assert_eq!(s.state, LifecycleState::Unknown);
    for state in [
        LifecycleState::NotInitialized,
        LifecycleState::Initialized,
        LifecycleState::Opened,
        LifecycleState::Indexed,
    ] {
        let mut t = session_in(state);
        assert_eq!(t.begin(Operation::Exists, 0), Ok(()));
        t.complete(Operation::Exists, CapabilityOutcome::Present(false));
        t.complete(Operation::Exists, CapabilityOutcome::Failed { ambiguous: true });
        assert_eq!(t.state, state);
    }
}

#[test]
fn second_init_is_refused() {
    let mut s = Session::new(identity("/tmp/repo"));
    assert_eq!(s.begin(Operation::Init, 0), Ok(()));
    s.complete(Operation::Init, CapabilityOutcome::Completed);
    assert_eq!(
        s.begin(Operation::Init, 0),
        Err(Refusal::Precondition {
            current: LifecycleState::Initialized,
            requested: Operation::Init
        })
    );
}

#[test]
fn init_clean_failure_can_retry_and_ambiguous_faults() {
    let mut s = Session::new(identity("/tmp/repo"));
    s.complete(Operation::Init, CapabilityOutcome::Failed { ambiguous: false });
    assert_eq!(s.state, LifecycleState::Unknown);
    assert_eq!(s.begin(Operation::Init, 0), Ok(()));
    s.complete(Operation::Init, CapabilityOutcome::Failed { ambiguous: true });
    assert_eq!(s.state, LifecycleState::Faulted);
}

#[test]
fn backup_while_opened_is_refused() {
    let mut s = session_in(LifecycleState::Opened);
    assert_eq!(
        s.begin(Operation::Backup, 1),
        Err(Refusal::Precondition {
            current: LifecycleState::Opened,
            requested: Operation::Backup
        })
    );
    s.complete(Operation::Backup, CapabilityOutcome::Completed);
    assert_eq!(s.state, LifecycleState::Opened);
}

#[test]
fn open_failure_faults_and_faulted_is_sticky() {
    let mut s = session_in(LifecycleState::Initialized);
    s.complete(Operation::Open, CapabilityOutcome::Failed { ambiguous: false });
    assert_eq!(s.state, LifecycleState::Faulted);
    for op in [Operation::Exists, Operation::Init, Operation::Open, Operation::Index, Operation::Backup] {
        assert!(s.begin(op, 1).is_err());
        s.complete(op, CapabilityOutcome::Completed);
        assert_eq!(s.state, LifecycleState::Faulted);
    }
}

#[test]
fn index_and_backup_failures_keep_state() {
    let mut s = session_in(LifecycleState::Opened);
    s.complete(Operation::Index, CapabilityOutcome::Failed { ambiguous: true });
    assert_eq!(s.state, LifecycleState::Opened);
    s.complete(Operation::Index, CapabilityOutcome::Completed);
    assert_eq!(s.state, LifecycleState::Indexed);
    s.complete(Operation::Backup, CapabilityOutcome::Failed { ambiguous: true });
    assert_eq!(s.state, LifecycleState::Indexed);
    s.complete(Operation::Open, CapabilityOutcome::Completed);
    assert_eq!(s.state, LifecycleState::Indexed);
}

#[test]
fn empty_backup_is_a_configuration_error() {
    let s = session_in(LifecycleState::Indexed);
    assert_eq!(s.begin(Operation::Backup, 0), Err(Refusal::EmptyPathList));
    match refusal_error(Refusal::EmptyPathList) {
        DaemonError::Configuration(m) => {
            assert_eq!(m, vec!["a backup needs at least one path".to_string()])
        }
        other => panic!("unexpected {:?}", other),
    }
    match refusal_error(Refusal::Precondition {
        current: LifecycleState::Opened,
        requested: Operation::Backup,
    }) {
        DaemonError::Precondition { current, requested } => {
            assert_eq!(current, LifecycleState::Opened);
            assert_eq!(requested, Operation::Backup);
        }
        other => panic!("unexpected {:?}", other),
    }
}

#[test]
fn settle_reports_state_or_capability_failure() {
    let mut s = session_in(LifecycleState::Initialized);
    match settle(&mut s, Operation::Open, CapabilityOutcome::Completed, String::new()) {
        Ok(state) => assert_eq!(state, LifecycleState::Opened),
        Err(e) => panic!("unexpected {:?}", e),
    }
    match settle(&mut s, Operation::Index, CapabilityOutcome::Failed { ambiguous: false }, "disk".to_string()) {
        Err(DaemonError::Capability(c)) => assert_eq!(c, "disk"),
        other => panic!("unexpected {:?}", other.is_ok()),
    }
    assert_eq!(s.state, LifecycleState::Opened);
}

#[test]
fn local_repository_walkthrough() {
    let daemon = RusticDaemonImpl::new();
    let req = request("repository = \"/tmp/repo\"\n", "", "test");
    let report = daemon.validate_repo_opts(&req);
    assert!(report.errors.is_empty());
    assert!(report.warnings.is_empty());

    let (id, _config) = daemon.resolve_request(&req).ok().unwrap();
    let mut registry = SessionRegistry::new();
    let (slot, created) = registry.resolve(&id);
    assert!(created);
    let mut session = Session::new(id.duplicate());

    assert_eq!(session.begin(Operation::Exists, 0), Ok(()));
    assert_eq!(
        settle(&mut session, Operation::Exists, CapabilityOutcome::Present(false), String::new()).ok(),
        Some(LifecycleState::Unknown)
    );
    assert_eq!(session.begin(Operation::Init, 0), Ok(()));
    settle(&mut session, Operation::Init, CapabilityOutcome::Completed, String::new()).ok().unwrap();
    assert_eq!(registry.resolve(&id), (slot, false));

    for op in [Operation::Open, Operation::Index] {
        assert_eq!(session.begin(op, 0), Ok(()));
        settle(&mut session, op, CapabilityOutcome::Completed, String::new()).ok().unwrap();
    }
    assert_eq!(session.state, LifecycleState::Indexed);

    match session.begin(Operation::Backup, 0).map_err(refusal_error) {
        Err(DaemonError::Configuration(m)) => assert_eq!(m.len(), 1),
        other => panic!("unexpected {:?}", other),
    }
    assert_eq!(session.begin(Operation::Backup, 1), Ok(()));
    assert_eq!(
        settle(&mut session, Operation::Backup, CapabilityOutcome::Completed, String::new()).ok(),
        Some(LifecycleState::Indexed)
    );
}

#[test]
fn required_states_follow_the_table() {
    assert_eq!(
        required_states(Operation::Init),
        vec![LifecycleState::Unknown, LifecycleState::NotInitialized]
    );
    assert_eq!(
        required_states(Operation::Open),
        vec![LifecycleState::Initialized, LifecycleState::Opened]
    );
    assert_eq!(required_states(Operation::Index), vec![LifecycleState::Opened]);
    assert_eq!(required_states(Operation::Backup), vec![LifecycleState::Indexed]);
    assert_eq!(required_states(Operation::Exists).len(), 5);
    assert!(!required_states(Operation::Exists).contains(&LifecycleState::Faulted));
}

#[test]
fn init_failure_outcome_marks_leftovers_ambiguous() {
    assert_eq!(init_failure_outcome(Some(false)), CapabilityOutcome::Failed { ambiguous: false });
    assert_eq!(init_failure_outcome(Some(true)), CapabilityOutcome::Failed { ambiguous: true });
    assert_eq!(init_failure_outcome(None), CapabilityOutcome::Failed { ambiguous: true });
}
