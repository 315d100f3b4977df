//! The provider dispatcher: a closed family of identity-provider backends,
//! selected once at startup and held for the process lifetime.

use vstd::prelude::*;
use vstd::string::StringExecFns;

use crate::client::{BackendError, OIDCConfig, SecretResult};
use crate::config::{AuthentikConfig, KeyCloakConfig};

verus! {

/// The active identity-provider backend: a tagged union over the supported
/// backends, each case holding the configuration of that backend.
///
/// Exactly one value of this type exists per process; it is chosen once at
/// startup by [`OIDCProvider::try_init`] and never changes afterwards.
#[derive(Debug, PartialEq, Eq)]
pub enum OIDCProvider {
    Keycloak(KeyCloakConfig),
    Authentik(AuthentikConfig),
}

impl Clone for OIDCProvider {
    fn clone(&self) -> (res: Self)
        ensures
            res == *self,
    {
        match self {
            OIDCProvider::Keycloak(conf) => OIDCProvider::Keycloak(conf.clone()),
            OIDCProvider::Authentik(conf) => OIDCProvider::Authentik(conf.clone()),
        }
    }
}

/// The provider that probing settles on: the first schema, in priority order
/// (Keycloak before Authentik), whose configuration parsed.
pub open spec fn resolved_provider(
    keycloak: Result<KeyCloakConfig, String>,
    authentik: Result<AuthentikConfig, String>,
) -> Option<OIDCProvider> {
    if keycloak is Ok {
        Some(OIDCProvider::Keycloak(keycloak->Ok_0))
    } else if authentik is Ok {
        Some(OIDCProvider::Authentik(authentik->Ok_0))
    } else {
        None
    }
}

/// The diagnostics that probing emits: one line for each schema that was
/// tried and failed to parse, in the order the schemas were tried.
pub open spec fn probe_diagnostics(
    keycloak: Result<KeyCloakConfig, String>,
    authentik: Result<AuthentikConfig, String>,
) -> Seq<String> {
    if keycloak is Ok {
        Seq::<String>::empty()
    } else if authentik is Ok {
        seq![keycloak->Err_0]
    } else {
        seq![keycloak->Err_0, authentik->Err_0]
    }
}

impl OIDCProvider {
    /// Decide, from the outcome of parsing each backend's configuration
    /// schema, which single backend is active.
    ///
    /// The schemas are tried in a fixed priority order — Keycloak first,
    /// then Authentik — and the first that parsed wins; the rest are not
    /// considered. A schema that failed to parse is not an error: its
    /// diagnostic is returned (in probing order) for the operator, and
    /// probing moves on. When no schema parsed, the provider is absent and
    /// the caller decides whether the process may start.
    pub fn try_init(
        keycloak: Result<KeyCloakConfig, String>,
        authentik: Result<AuthentikConfig, String>,
    ) -> (r: (Option<OIDCProvider>, Vec<String>))
        ensures
            r.0 == resolved_provider(keycloak, authentik),
            r.1@ == probe_diagnostics(keycloak, authentik),
    {
        let mut diagnostics: Vec<String> = Vec::new();
        let keycloak_diag = match keycloak {
            Ok(conf) => {
                return (Some(OIDCProvider::Keycloak(conf)), diagnostics);
            },
            Err(diag) => diag,
        };
        diagnostics.push(keycloak_diag);
        let authentik_diag = match authentik {
            Ok(conf) => {
                return (Some(OIDCProvider::Authentik(conf)), diagnostics);
            },
            Err(diag) => diag,
        };
        diagnostics.push(authentik_diag);
        (None, diagnostics)
    }

    /// Build the backend creation call for this provider: the active
    /// variant's backend, handed `name` and `oidc_client_config` unchanged.
    ///
    /// The backend call itself is network I/O and is performed by the
    /// surrounding runtime; its outcome comes back through
    /// [`OIDCProvider::create_client_response`], which sanitizes any error.
    pub fn create_client(&self, name: &str, oidc_client_config: OIDCConfig) -> (call: CreateCall)
        requires
            name@.len() > 0,
        ensures
            call.target == *self,
            call.name@ == name@,
            call.config == oidc_client_config,
    {
        CreateCall { target: self.clone(), name: name.to_owned(), config: oidc_client_config }
    }

    /// Build the backend validation call for this provider: the active
    /// variant's backend, handed `name`, `secret` and `oidc_client_config`
    /// unchanged.
    ///
    /// The backend call itself is network I/O and is performed by the
    /// surrounding runtime; its outcome comes back through
    /// [`OIDCProvider::validate_client_response`], which sanitizes any
    /// error. Validation reads backend state and never mutates it, so any
    /// number of these calls may run concurrently.
    pub fn validate_client(
        &self,
        name: &str,
        secret: &str,
        oidc_client_config: OIDCConfig,
    ) -> (call: ValidateCall)
        ensures
            call.target == *self,
            call.name@ == name@,
            call.secret@ == secret@,
            call.config == oidc_client_config,
    {
        ValidateCall {
            target: self.clone(),
            name: name.to_owned(),
            secret: secret.to_owned(),
            config: oidc_client_config,
        }
    }

    /// Turn the backend's creation outcome into the caller-visible result
    /// and the operator log line.
    ///
    /// An issued credential bundle is returned verbatim. Any backend error
    /// is replaced by the one fixed, caller-safe message; its full detail
    /// goes only into the returned log line. Nothing backend-specific ever
    /// crosses into the caller-visible value.
    pub fn create_client_response(backend: Result<SecretResult, BackendError>) -> (r: (
        Result<SecretResult, String>,
        Option<String>,
    ))
        ensures
            sanitized_view(r.0) == create_response_model(backend),
            backend is Ok ==> r.1 is None,
            backend matches Err(e) ==> (r.1 matches Some(line) && line@ == create_failure_log(
                e.detail@,
            )),
    {
        match backend {
            Ok(secret) => (Ok(secret), None),
            Err(err) => {
                let line = format_create_failure(&err);
                (Err("Error creating OIDC client".to_owned()), Some(line))
            },
        }
    }

    /// Turn the backend's validation outcome into the caller-visible result
    /// and the operator log line.
    ///
    /// The backend's verdict is passed through verbatim: `true` only when
    /// the client exists and its secret and configuration both match,
    /// `false` — not an error — when the client fails any of those checks.
    /// Any backend error is replaced by the one fixed, caller-safe message;
    /// its full detail goes only into the returned log line.
    pub fn validate_client_response(name: &str, backend: Result<bool, BackendError>) -> (r: (
        Result<bool, String>,
        Option<String>,
    ))
        ensures
            sanitized_view(r.0) == validate_response_model(backend),
            backend matches Ok(valid) ==> r.0 == Ok::<bool, String>(valid),
            backend is Ok ==> r.1 is None,
            backend matches Err(e) ==> (r.1 matches Some(line) && line@ == validate_failure_log(
                name@,
                e.detail@,
            )),
    {
        match backend {
            Ok(valid) => (Ok(valid), None),
            Err(err) => {
                let line = format_validate_failure(name, &err);
                (Err("Failed to validate client. See upstream logs.".to_owned()), Some(line))
            },
        }
    }
}

/// A creation call bound for a backend: the backend to address (the active
/// provider variant, configuration included) and the caller's arguments,
/// unchanged.
pub struct CreateCall {
    pub target: OIDCProvider,
    pub name: String,
    pub config: OIDCConfig,
}

/// A validation call bound for a backend: the backend to address (the
/// active provider variant, configuration included) and the caller's
/// arguments, unchanged.
pub struct ValidateCall {
    pub target: OIDCProvider,
    pub name: String,
    pub secret: String,
    pub config: OIDCConfig,
}

/// The caller-visible face of a sanitized result: the error text alone,
/// success passed through.
pub open spec fn sanitized_view<T>(r: Result<T, String>) -> Result<T, Seq<char>> {
    match r {
        Ok(value) => Ok(value),
        Err(message) => Err(message@),
    }
}

/// The one fixed message a caller may see when creation fails.
pub open spec fn create_error_text() -> Seq<char> {
    "Error creating OIDC client"@
}

/// The one fixed message a caller may see when validation fails.
pub open spec fn validate_error_text() -> Seq<char> {
    "Failed to validate client. See upstream logs."@
}

/// What the caller sees of a backend creation outcome: the issued bundle
/// verbatim, or the fixed creation-failure message.
pub open spec fn create_response_model(backend: Result<SecretResult, BackendError>) -> Result<
    SecretResult,
    Seq<char>,
> {
    match backend {
        Ok(secret) => Ok(secret),
        Err(_) => Err(create_error_text()),
    }
}

/// What the caller sees of a backend validation outcome: the backend's
/// verdict verbatim, or the fixed validation-failure message.
pub open spec fn validate_response_model(backend: Result<bool, BackendError>) -> Result<
    bool,
    Seq<char>,
> {
    match backend {
        Ok(valid) => Ok(valid),
        Err(_) => Err(validate_error_text()),
    }
}

/// The operator log line for a failed creation.
pub open spec fn create_failure_log(detail: Seq<char>) -> Seq<char> {
    "Failed to create client: "@ + detail
}

/// The operator log line for a failed validation of the named client.
pub open spec fn validate_failure_log(name: Seq<char>, detail: Seq<char>) -> Seq<char> {
    "Failed to validate client "@ + name + ": "@ + detail
}

/// When exactly one schema's configuration is present, probing selects that
/// backend and no other.
pub proof fn lemma_probe_selects_sole_configured(
    keycloak: Result<KeyCloakConfig, String>,
    authentik: Result<AuthentikConfig, String>,
)
    requires
        (keycloak is Ok && authentik is Err) || (keycloak is Err && authentik is Ok),
    ensures
        keycloak is Ok ==> resolved_provider(keycloak, authentik) == Some(
            OIDCProvider::Keycloak(keycloak->Ok_0),
        ),
        authentik is Ok ==> resolved_provider(keycloak, authentik) == Some(
            OIDCProvider::Authentik(authentik->Ok_0),
        ),
{
}

/// When two schemas' configurations are simultaneously satisfiable, probing
/// selects the higher-priority one — Keycloak before Authentik. The choice
/// is a function of the two parse outcomes alone, so it is the same on
/// every run that sees the same environment.
pub proof fn lemma_probe_priority(
    keycloak: Result<KeyCloakConfig, String>,
    authentik: Result<AuthentikConfig, String>,
)
    requires
        keycloak is Ok,
        authentik is Ok,
    ensures
        resolved_provider(keycloak, authentik) == Some(OIDCProvider::Keycloak(keycloak->Ok_0)),
{
}

/// When no schema's configuration is satisfiable, probing settles on no
/// provider and leaves one diagnostic line per schema tried, in probing
/// order.
pub proof fn lemma_probe_exhausted(
    keycloak: Result<KeyCloakConfig, String>,
    authentik: Result<AuthentikConfig, String>,
)
    requires
        keycloak is Err,
        authentik is Err,
    ensures
        resolved_provider(keycloak, authentik) is None,
        probe_diagnostics(keycloak, authentik) == seq![keycloak->Err_0, authentik->Err_0],
{
}

/// Validation calls do not interfere: in any batch of backend validation
/// outcomes, what the caller of the `i`-th call sees is a function of that
/// call's own outcome alone — changing every other outcome (or the order
/// the calls completed in) changes nothing about it. This layer keeps no
/// state between calls for results to leak through.
pub proof fn lemma_validate_independent(
    outcomes1: Seq<Result<bool, BackendError>>,
    outcomes2: Seq<Result<bool, BackendError>>,
    i: int,
)
    requires
        outcomes1.len() == outcomes2.len(),
        0 <= i < outcomes1.len(),
        outcomes1[i] == outcomes2[i],
    ensures
        outcomes1.map_values(|outcome: Result<bool, BackendError>| validate_response_model(outcome))[i]
            == outcomes2.map_values(
            |outcome: Result<bool, BackendError>| validate_response_model(outcome),
        )[i],
{
}

fn format_create_failure(err: &BackendError) -> (line: String)
    ensures
        line@ == create_failure_log(err.detail@),
{
    let mut line: String = "Failed to create client: ".to_owned();
    line.append(err.detail.as_str());
    line
}

fn format_validate_failure(name: &str, err: &BackendError) -> (line: String)
    ensures
        line@ == validate_failure_log(name@, err.detail@),
{
    let mut line: String = "Failed to validate client ".to_owned();
    line.append(name);
    line.append(": ");
    line.append(err.detail.as_str());
    line
}

} // verus!

