use secret_sync::client::{BackendError, OIDCConfig, SecretResult};
use secret_sync::config::{AuthentikConfig, GitlabConfig, KeyCloakConfig};
use secret_sync::provider::OIDCProvider;

fn keycloak_conf() -> KeyCloakConfig {
    KeyCloakConfig {
        keycloak_url: "http://keycloak:8080".to_string(),
        keycloak_realm: "master".to_string(),
        keycloak_id: "admin".to_string(),
        keycloak_secret: "SECRET-REDACTED".to_string(),
    }
}

fn authentik_conf() -> AuthentikConfig {
    AuthentikConfig {
        authentik_url: "http://authentik:9000".to_string(),
        authentik_id: "akadmin".to_string(),
        authentik_secret: "SECRET-REDACTED".to_string(),
    }
}

fn client_conf() -> OIDCConfig {
    OIDCConfig {
        is_public: false,
        redirect_urls: vec!["https://app.example/redirect".to_string()],
    }
}

#[test]
fn try_init_selects_keycloak_when_only_keycloak_parses() {
    let (provider, diagnostics) = OIDCProvider::try_init(
        Ok(keycloak_conf()),
        Err("missing AUTHENTIK_URL".to_string()),
    );
    assert_eq!(provider, Some(OIDCProvider::Keycloak(keycloak_conf())));
    assert_eq!(diagnostics, Vec::<String>::new());
}

#[test]
fn try_init_selects_authentik_when_only_authentik_parses() {
    let (provider, diagnostics) = OIDCProvider::try_init(
        Err("missing KEYCLOAK_URL".to_string()),
        Ok(authentik_conf()),
    );
    assert_eq!(provider, Some(OIDCProvider::Authentik(authentik_conf())));
    assert_eq!(diagnostics, vec!["missing KEYCLOAK_URL".to_string()]);
}

#[test]
fn try_init_prefers_keycloak_when_both_parse() {
    let (provider, diagnostics) =
        OIDCProvider::try_init(Ok(keycloak_conf()), Ok(authentik_conf()));
    assert_eq!(provider, Some(OIDCProvider::Keycloak(keycloak_conf())));
    assert!(diagnostics.is_empty());
}

#[test]
fn try_init_is_deterministic_across_repeated_runs() {
    let first = OIDCProvider::try_init(Ok(keycloak_conf()), Ok(authentik_conf()));
    let second = OIDCProvider::try_init(Ok(keycloak_conf()), Ok(authentik_conf()));
    assert_eq!(first, second);
    assert_eq!(first.0, Some(OIDCProvider::Keycloak(keycloak_conf())));
}

#[test]
fn try_init_returns_absent_with_two_diagnostics_when_nothing_parses() {
    let (provider, diagnostics) = OIDCProvider::try_init(
        Err("missing KEYCLOAK_URL".to_string()),
        Err("missing AUTHENTIK_URL".to_string()),
    );
    assert_eq!(provider, None);
    assert_eq!(
        diagnostics,
        vec![
            "missing KEYCLOAK_URL".to_string(),
            "missing AUTHENTIK_URL".to_string(),
        ]
    );
}

#[test]
fn create_client_addresses_the_active_backend_unchanged() {
    let provider = OIDCProvider::Keycloak(keycloak_conf());
    let call = provider.create_client("app-1", client_conf());
    assert_eq!(call.target, provider);
    assert_eq!(call.name, "app-1".to_string());
    assert_eq!(call.config, client_conf());
}

#[test]
fn validate_client_addresses_the_active_backend_unchanged() {
    let provider = OIDCProvider::Authentik(authentik_conf());
    let call = provider.validate_client("app-1", "SECRET-REDACTED", client_conf());
    assert_eq!(call.target, provider);
    assert_eq!(call.name, "app-1".to_string());
    assert_eq!(call.secret, "SECRET-REDACTED".to_string());
    assert_eq!(call.config, client_conf());
}

#[test]
fn create_client_response_passes_issued_secret_through_verbatim() {
    let issued = SecretResult::Created("SECRET-REDACTED".to_string());
    let (result, log) = OIDCProvider::create_client_response(Ok(issued.clone()));
    assert_eq!(result, Ok(issued));
    assert_eq!(log, None);
}

#[test]
fn create_client_network_error_yields_the_fixed_message() {
    let backend_error = BackendError {
        detail: "connection refused (os error 111)".to_string(),
    };
    let (result, log) = OIDCProvider::create_client_response(Err(backend_error));
    assert_eq!(result, Err("Error creating OIDC client".to_string()));
    assert_eq!(
        log,
        Some("Failed to create client: connection refused (os error 111)".to_string())
    );
}

#[test]
fn create_client_error_never_leaks_backend_detail() {
    let backend_error = BackendError {
        detail: "401 Unauthorized from http://keycloak:8080/admin".to_string(),
    };
    let (result, _log) = OIDCProvider::create_client_response(Err(backend_error));
    let message = result.unwrap_err();
    assert_eq!(message, "Error creating OIDC client");
    assert!(!message.contains("401"));
    assert!(!message.contains("keycloak"));
}

#[test]
fn validate_client_error_yields_the_fixed_message() {
    let backend_error = BackendError {
        detail: "timed out waiting for backend".to_string(),
    };
    let (result, log) = OIDCProvider::validate_client_response("app-1", Err(backend_error));
    assert_eq!(
        result,
        Err("Failed to validate client. See upstream logs.".to_string())
    );
    assert_eq!(
        log,
        Some("Failed to validate client app-1: timed out waiting for backend".to_string())
    );
}

#[test]
fn validate_client_mismatch_is_false_not_an_error() {
    let (result, log) = OIDCProvider::validate_client_response("app-1", Ok(false));
    assert_eq!(result, Ok(false));
    assert_eq!(log, None);
}

#[test]
fn validate_client_full_match_is_true() {
    let (result, log) = OIDCProvider::validate_client_response("app-1", Ok(true));
    assert_eq!(result, Ok(true));
    assert_eq!(log, None);
}

#[test]
fn validate_client_results_are_independent_of_other_calls() {
    let lone = OIDCProvider::validate_client_response("app-1", Ok(true));
    let beside_error = {
        let _other = OIDCProvider::validate_client_response(
            "app-2",
            Err(BackendError {
                detail: "backend unreachable".to_string(),
            }),
        );
        OIDCProvider::validate_client_response("app-1", Ok(true))
    };
    assert_eq!(lone, beside_error);
}

#[test]
fn gitlab_config_holds_its_fields() {
    let conf = GitlabConfig {
        gitlab_url: "https://gitlab.example".to_string(),
        private_token: "SECRET-REDACTED".to_string(),
    };
    assert_eq!(conf.gitlab_url, "https://gitlab.example");
    assert_eq!(conf, conf.clone());
}
