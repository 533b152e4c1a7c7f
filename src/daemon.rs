//! The daemon's request handling: validation of the submitted configuration,
//! resolution of the repository identity a request addresses, and the shaping
//! of lifecycle outcomes into replies.
use vstd::prelude::*;
use rustic_core::RepositoryOptions;
use crate::config::{
    backend_problem,
    backend_result_view,
    backend_toml,
    decode_backend_options,
    decode_repository_options,
    describe_backend_problem,
    describe_repository_problem,
    identity_of,
    identity_of_backend,
    opt_view,
    repository_problem,
    repository_result_view,
    repository_toml_error,
    BackendConfig,
    RepositoryIdentity,
};
use crate::lifecycle::{next_state, CapabilityOutcome, LifecycleState, Operation, Refusal};
use crate::registry::Session;

verus! {

/// A request carrying the two configuration documents and the password.
pub struct RepoOpts {
    pub backend_opts_toml: String,
    pub repo_opts_toml: String,
    pub password: String,
}

/// The reply to a validation request.
pub struct ValidateResponse {
    pub errors: Vec<String>,
    pub warnings: Vec<String>,
}

/// The repository options and the password taken from a request.
pub struct RepositorySettings {
    pub options: RepositoryOptions,
    pub password: String,
}

/// The kinds of failure a caller can tell apart.
#[derive(Debug)]
pub enum DaemonError {
    /// A configuration document is malformed or incomplete, or a request's
    /// payload is unusable; one message per problem.
    Configuration(Vec<String>),
    /// The session is not in a state from which the operation may start.
    Precondition { current: LifecycleState, requested: Operation },
    /// The repository capability failed, with its cause.
    Capability(String),
    /// Exclusive access to the session was not obtained before the deadline.
    ConcurrencyTimeout,
}

pub open spec fn strings_view(v: Vec<String>) -> Seq<Seq<char>> {
    v@.map_values(|s: String| s@)
}

pub open spec fn listed(o: Option<Seq<char>>) -> Seq<Seq<char>> {
    match o {
        Some(m) => seq![m],
        None => Seq::empty(),
    }
}

/// The errors reported for decoded documents.
pub open spec fn problems(
    backend: Result<(Option<Seq<char>>, Option<Seq<char>>), Seq<char>>,
    repository: Option<Seq<char>>,
) -> Seq<Seq<char>> {
    listed(backend_problem(backend)) + listed(repository_problem(repository))
}

/// The errors reported for a pair of configuration texts.
pub open spec fn validation_messages(backend_text: Seq<char>, repo_text: Seq<char>) -> Seq<
    Seq<char>,
> {
    problems(backend_toml(backend_text), repository_toml_error(repo_text))
}

pub open spec fn empty_paths_message() -> Seq<char> {
    "a backup needs at least one path"@
}

/// The validation reply for decoded documents: one error per unusable
/// document, backend first, and no warnings.
pub fn assemble_validation(
    backend: &Result<BackendConfig, String>,
    repository: &Result<RepositoryOptions, String>,
) -> (r: ValidateResponse)
    ensures
        strings_view(r.errors) == problems(
            backend_result_view(*backend),
            repository_result_view(*repository),
        ),
        r.warnings@.len() == 0,
{
    let mut errors: Vec<String> = Vec::new();
    let b = describe_backend_problem(backend);
    let ghost first = listed(opt_view(b));
    match b {
        Some(m) => errors.push(m),
        None => {},
    }
    assert(strings_view(errors) =~= first);
    let rp = describe_repository_problem(repository);
    let ghost second = listed(opt_view(rp));
    match rp {
        Some(m) => errors.push(m),
        None => {},
    }
    assert(strings_view(errors) =~= first + second);
    ValidateResponse { errors, warnings: Vec::new() }
}

/// The identity and backend configuration of decoded documents that
/// validate; the validation errors otherwise.
pub fn identity_from_decoded(
    backend: Result<BackendConfig, String>,
    repository: &Result<RepositoryOptions, String>,
) -> (r: Result<(RepositoryIdentity, BackendConfig), DaemonError>)
    ensures
        match r {
            Ok((id, config)) => {
                &&& problems(backend_result_view(backend), repository_result_view(*repository)).len()
                    == 0
                &&& backend == Ok::<BackendConfig, String>(config)
                &&& backend_result_view(backend) == Ok::<_, Seq<char>>(config.locations())
                &&& identity_of(config.locations()) == Some(id.view())
            },
            Err(DaemonError::Configuration(messages)) => {
                &&& strings_view(messages) == problems(
                    backend_result_view(backend),
                    repository_result_view(*repository),
                )
                &&& strings_view(messages).len() > 0
            },
            Err(_) => false,
        },
{
    let report = assemble_validation(&backend, repository);
    if report.errors.len() > 0 {
        return Err(DaemonError::Configuration(report.errors));
    }
    match backend {
        Ok(config) => match identity_of_backend(&config) {
            Some(id) => Ok((id, config)),
            None => {
                assert(listed(backend_problem(backend_result_view(Ok::<_, String>(config)))).len()
                    > 0);
                Err(DaemonError::Configuration(report.errors))
            },
        },
        Err(cause) => {
            assert(listed(backend_problem(backend_result_view(Err::<BackendConfig, _>(cause)))).len()
                > 0);
            Err(DaemonError::Configuration(report.errors))
        },
    }
}

/// The error that a refused operation is reported as.
pub fn refusal_error(refusal: Refusal) -> (r: DaemonError)
    ensures
        match refusal {
            Refusal::Precondition { current, requested } => r == (DaemonError::Precondition {
                current,
                requested,
            }),
            Refusal::EmptyPathList => match r {
                DaemonError::Configuration(m) => strings_view(m) == seq![empty_paths_message()],
                _ => false,
            },
        },
{
    match refusal {
        Refusal::Precondition { current, requested } => DaemonError::Precondition {
            current,
            requested,
        },
        Refusal::EmptyPathList => {
            let mut messages: Vec<String> = Vec::new();
            messages.push(String::from_str("a backup needs at least one path"));
            assert(strings_view(messages) =~= seq![empty_paths_message()]);
            DaemonError::Configuration(messages)
        },
    }
}

/// Records the capability's report for `op` on the session and shapes the
/// reply: the state reached, or the capability's failure with its `cause`.
pub fn settle(session: &mut Session, op: Operation, outcome: CapabilityOutcome, cause: String) -> (r:
    Result<LifecycleState, DaemonError>)
    ensures
        final(session).identity == old(session).identity,
        final(session).state == next_state(old(session).state, op, outcome),
        match r {
            Ok(state) => outcome !is Failed && state == final(session).state,
            Err(DaemonError::Capability(c)) => outcome is Failed && c@ == cause@,
            Err(_) => false,
        },
{
    session.complete(op, outcome);
    match outcome {
        CapabilityOutcome::Failed { .. } => Err(DaemonError::Capability(cause)),
        _ => Ok(session.state),
    }
}

/// The daemon's request handler. It holds no state of its own: sessions live
/// in a `SessionRegistry` beside it.
pub struct RusticDaemonImpl {}

impl RusticDaemonImpl {
    pub fn new() -> (r: RusticDaemonImpl) {
        RusticDaemonImpl {  }
    }

    /// The decoded repository options and the password of a request.
    pub fn parse_repo_opts(&self, repo_opts: RepoOpts) -> (r: Result<RepositorySettings, DaemonError>)
        ensures
            match r {
                Ok(settings) => {
                    &&& repository_toml_error(repo_opts.repo_opts_toml@) is None
                    &&& settings.password@ == repo_opts.password@
                },
                Err(DaemonError::Configuration(messages)) => {
                    &&& repository_toml_error(repo_opts.repo_opts_toml@) is Some
                    &&& strings_view(messages) == listed(
                        repository_problem(repository_toml_error(repo_opts.repo_opts_toml@)),
                    )
                },
                Err(_) => false,
            },
    {
        let parsed = decode_repository_options(repo_opts.repo_opts_toml.as_str());
        let problem = describe_repository_problem(&parsed);
        match parsed {
            Ok(options) => Ok(RepositorySettings { options, password: repo_opts.password }),
            Err(_) => {
                let mut messages: Vec<String> = Vec::new();
                let ghost expected = listed(opt_view(problem));
                match problem {
                    Some(m) => messages.push(m),
                    None => {},
                }
                assert(strings_view(messages) =~= expected);
                Err(DaemonError::Configuration(messages))
            },
        }
    }

    /// Validates both configuration documents of a request. Nothing beyond
    /// decoding is done: no session is touched and no resource is built.
    pub fn validate_repo_opts(&self, request: &RepoOpts) -> (r: ValidateResponse)
        ensures
            strings_view(r.errors) == validation_messages(
                request.backend_opts_toml@,
                request.repo_opts_toml@,
            ),
            r.warnings@.len() == 0,
    {
        let backend = decode_backend_options(request.backend_opts_toml.as_str());
        let repository = decode_repository_options(request.repo_opts_toml.as_str());
        assemble_validation(&backend, &repository)
    }

    /// The identity a request addresses, with its decoded backend
    /// configuration, when its documents validate; the validation errors
    /// otherwise. A request with any error never reaches a session.
    pub fn resolve_request(&self, request: &RepoOpts) -> (r: Result<
        (RepositoryIdentity, BackendConfig),
        DaemonError,
    >)
        ensures
            r is Ok <==> configuration_valid(request.backend_opts_toml@, request.repo_opts_toml@),
            match r {
                Ok((id, config)) => {
                    &&& validation_messages(request.backend_opts_toml@, request.repo_opts_toml@).len()
                        == 0
                    &&& backend_toml(request.backend_opts_toml@) == Ok::<_, Seq<char>>(
                        config.locations(),
                    )
                    &&& identity_of(config.locations()) == Some(id.view())
                },
                Err(DaemonError::Configuration(messages)) => {
                    &&& strings_view(messages) == validation_messages(
                        request.backend_opts_toml@,
                        request.repo_opts_toml@,
                    )
                    &&& strings_view(messages).len() > 0
                },
                Err(_) => false,
            },
    {
        let backend = decode_backend_options(request.backend_opts_toml.as_str());
        let repository = decode_repository_options(request.repo_opts_toml.as_str());
        proof {
            if configuration_valid(request.backend_opts_toml@, request.repo_opts_toml@) {
                valid_configuration_accepted(request.backend_opts_toml@, request.repo_opts_toml@);
            } else {
                invalid_configuration_reported(request.backend_opts_toml@, request.repo_opts_toml@);
            }
        }
        identity_from_decoded(backend, &repository)
    }
}

/// Both documents decode, and the backend document names a repository.
pub open spec fn configuration_valid(backend_text: Seq<char>, repo_text: Seq<char>) -> bool {
    &&& backend_toml(backend_text) matches Ok((location, _)) && location is Some
    &&& repository_toml_error(repo_text) is None
}

/// A pair of documents that is not valid is reported with at least one error;
/// such a request is refused before any session is resolved (see
/// `RusticDaemonImpl::resolve_request`).
pub proof fn invalid_configuration_reported(backend_text: Seq<char>, repo_text: Seq<char>)
    requires
        !configuration_valid(backend_text, repo_text),
    ensures
        validation_messages(backend_text, repo_text).len() >= 1,
{
}

/// A valid pair of documents is reported with no error.
pub proof fn valid_configuration_accepted(backend_text: Seq<char>, repo_text: Seq<char>)
    requires
        configuration_valid(backend_text, repo_text),
    ensures
        validation_messages(backend_text, repo_text).len() == 0,
{
}

} // verus!
