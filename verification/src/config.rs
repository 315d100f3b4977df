//! Configuration bundles for the supported identity-provider backends, and
//! the plain values that cross the boundary between this layer and a backend.

use vstd::prelude::*;

verus! {

/// Connection parameters for a Keycloak deployment: where its admin API
/// lives, which realm the clients belong to, and the administrative
/// credentials used against it.
///
/// Immutable once constructed and never logged verbatim: the fields may hold
/// secret material.
#[derive(Debug, PartialEq, Eq)]
pub struct KeyCloakConfig {
    pub keycloak_url: String,
    pub keycloak_realm: String,
    pub keycloak_id: String,
    pub keycloak_secret: String,
}

impl Clone for KeyCloakConfig {
    fn clone(&self) -> (res: Self)
        ensures
            res == *self,
    {
        KeyCloakConfig {
            keycloak_url: self.keycloak_url.clone(),
            keycloak_realm: self.keycloak_realm.clone(),
            keycloak_id: self.keycloak_id.clone(),
            keycloak_secret: self.keycloak_secret.clone(),
        }
    }
}

/// Connection parameters for an Authentik deployment: the base URL of its
/// admin API and the administrative token used against it.
///
/// Immutable once constructed and never logged verbatim: the fields may hold
/// secret material.
#[derive(Debug, PartialEq, Eq)]
pub struct AuthentikConfig {
    pub authentik_url: String,
    pub authentik_id: String,
    pub authentik_secret: String,
}

impl Clone for AuthentikConfig {
    fn clone(&self) -> (res: Self)
        ensures
            res == *self,
    {
        AuthentikConfig {
            authentik_url: self.authentik_url.clone(),
            authentik_id: self.authentik_id.clone(),
            authentik_secret: self.authentik_secret.clone(),
        }
    }
}

/// Connection parameters for a GitLab deployment: kept as a configuration
/// schema of its own, not yet wired to a provider variant.
#[derive(Clone, Debug, PartialEq, Eq)]
pub struct GitlabConfig {
    pub gitlab_url: String,
    pub private_token: String,
}

} // verus!
