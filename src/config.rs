//! Configuration documents: decoding the backend and repository TOML texts,
//! the messages reported for documents that do not validate, and the identity
//! of the repository a backend configuration addresses.
use vstd::prelude::*;
use rustic_backend::BackendOptions;
use rustic_core::RepositoryOptions;

verus! {

#[verifier::external_type_specification]
#[verifier::external_body]
pub struct ExBackendOptions(BackendOptions);

#[verifier::external_type_specification]
#[verifier::external_body]
pub struct ExRepositoryOptions(RepositoryOptions);

/// What decoding a backend document yields, seen as plain values: on success
/// the `repository` and `repo-hot` locations, on failure the decoder's message.
pub uninterp spec fn backend_toml(text: Seq<char>) -> Result<
    (Option<Seq<char>>, Option<Seq<char>>),
    Seq<char>,
>;

/// The decoder's message when a repository document does not decode, else `None`.
pub uninterp spec fn repository_toml_error(text: Seq<char>) -> Option<Seq<char>>;

pub open spec fn opt_view(o: Option<String>) -> Option<Seq<char>> {
    match o {
        Some(s) => Some(s@),
        None => None,
    }
}

/// A decoded backend document together with the fields that address the repository.
pub struct BackendConfig {
    pub repository: Option<String>,
    pub repo_hot: Option<String>,
    pub options: BackendOptions,
}

impl BackendConfig {
    pub open spec fn locations(&self) -> (Option<Seq<char>>, Option<Seq<char>>) {
        (opt_view(self.repository), opt_view(self.repo_hot))
    }
}

pub open spec fn backend_result_view(r: Result<BackendConfig, String>) -> Result<
    (Option<Seq<char>>, Option<Seq<char>>),
    Seq<char>,
> {
    match r {
        Ok(config) => Ok(config.locations()),
        Err(message) => Err(message@),
    }
}

pub open spec fn repository_result_view(r: Result<RepositoryOptions, String>) -> Option<Seq<char>> {
    match r {
        Ok(_) => None,
        Err(message) => Some(message@),
    }
}

/// Relies on `toml::from_str` into rustic_backend's `BackendOptions`: a pure
/// decoding of the text; its error's `message()` holds the cause without
/// quoting the document.
#[verifier::external_body]
pub(crate) fn decode_backend_options(text: &str) -> (r: Result<BackendConfig, String>)
    ensures
        backend_result_view(r) == backend_toml(text@),
{
    match toml::from_str::<BackendOptions>(text) {
        Ok(options) => Ok(
            BackendConfig {
                repository: options.repository.clone(),
                repo_hot: options.repo_hot.clone(),
                options,
            },
        ),
        Err(e) => Err(e.message().to_string()),
    }
}

/// Relies on `toml::from_str` into rustic_core's `RepositoryOptions`: a pure
/// decoding of the text; its error's `message()` holds the cause without
/// quoting the document.
#[verifier::external_body]
pub(crate) fn decode_repository_options(text: &str) -> (r: Result<RepositoryOptions, String>)
    ensures
        repository_result_view(r) == repository_toml_error(text@),
{
    match toml::from_str::<RepositoryOptions>(text) {
        Ok(options) => Ok(options),
        Err(e) => Err(e.message().to_string()),
    }
}

pub open spec fn backend_prefix() -> Seq<char> {
    "Invalid backend_opts_toml: "@
}

pub open spec fn repository_prefix() -> Seq<char> {
    "Invalid repo_opts_toml: "@
}

pub open spec fn no_repository_cause() -> Seq<char> {
    "no repository given"@
}

/// The error reported for a backend document, if any: it must decode and it
/// must name the repository.
pub open spec fn backend_problem(
    parsed: Result<(Option<Seq<char>>, Option<Seq<char>>), Seq<char>>,
) -> Option<Seq<char>> {
    match parsed {
        Err(cause) => Some(backend_prefix() + cause),
        Ok((location, _)) => if location is None {
            Some(backend_prefix() + no_repository_cause())
        } else {
            None
        },
    }
}

/// The error reported for a repository document, if any.
pub open spec fn repository_problem(cause: Option<Seq<char>>) -> Option<Seq<char>> {
    match cause {
        Some(c) => Some(repository_prefix() + c),
        None => None,
    }
}

/// The message reported for a decoded backend document, if it is not usable.
pub fn describe_backend_problem(parsed: &Result<BackendConfig, String>) -> (r: Option<String>)
    ensures
        opt_view(r) == backend_problem(backend_result_view(*parsed)),
{
    match parsed {
        Err(cause) => {
            let message = String::from_str("Invalid backend_opts_toml: ").concat(cause.as_str());
            Some(message)
        },
        Ok(config) => {
            if config.repository.is_none() {
                let message = String::from_str("Invalid backend_opts_toml: ").concat(
                    "no repository given",
                );
                Some(message)
            } else {
                None
            }
        },
    }
}

/// The message reported for a decoded repository document, if it did not decode.
pub fn describe_repository_problem(parsed: &Result<RepositoryOptions, String>) -> (r: Option<String>)
    ensures
        opt_view(r) == repository_problem(repository_result_view(*parsed)),
{
    match parsed {
        Err(cause) => {
            let message = String::from_str("Invalid repo_opts_toml: ").concat(cause.as_str());
            Some(message)
        },
        Ok(_) => None,
    }
}

/// The key under which concurrent calls are recognised as addressing the same
/// repository: the cold and the hot storage location. Credentials and transport
/// options take no part in it.
pub struct RepositoryIdentity {
    pub location: String,
    pub hot_location: Option<String>,
}

impl RepositoryIdentity {
    pub open spec fn view(&self) -> (Seq<char>, Option<Seq<char>>) {
        (self.location@, opt_view(self.hot_location))
    }

    /// Whether two identities name the same repository.
    pub fn same(&self, other: &RepositoryIdentity) -> (r: bool)
        ensures
            r == (self.view() == other.view()),
    {
        if self.location != other.location {
            return false;
        }
        match (&self.hot_location, &other.hot_location) {
            (Some(a), Some(b)) => *a == *b,
            (None, None) => true,
            _ => false,
        }
    }

    pub fn duplicate(&self) -> (r: RepositoryIdentity)
        ensures
            r.view() == self.view(),
    {
        RepositoryIdentity {
            location: self.location.clone(),
            hot_location: match &self.hot_location {
                Some(h) => Some(h.clone()),
                None => None,
            },
        }
    }
}

/// The identity addressed by the decoded locations, when a repository is named.
pub open spec fn identity_of(locations: (Option<Seq<char>>, Option<Seq<char>>)) -> Option<
    (Seq<char>, Option<Seq<char>>),
> {
    match locations.0 {
        Some(location) => Some((location, locations.1)),
        None => None,
    }
}

/// The identity of the repository a backend configuration addresses.
pub fn identity_of_backend(config: &BackendConfig) -> (r: Option<RepositoryIdentity>)
    ensures
        match r {
            Some(id) => identity_of(config.locations()) == Some(id.view()),
            None => identity_of(config.locations()) is None,
        },
{
    match &config.repository {
        Some(location) => Some(
            RepositoryIdentity {
                location: location.clone(),
                hot_location: match &config.repo_hot {
                    Some(h) => Some(h.clone()),
                    None => None,
                },
            },
        ),
        None => None,
    }
}

} // verus!
