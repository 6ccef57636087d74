//! API-key authorization for the gateway: the configuration of keys and
//! bypass paths, and the decision applied to each request.

use vstd::prelude::*;
use vstd::string::StringSliceAdditionalSpecFns;
use vstd::utf8::encode_utf8;

use crate::text::{spec_starts_with, str_eq, str_starts_with};

verus! {

/// An API key with its identity and granted scopes.
#[derive(Debug, Clone)]
pub struct ApiKey {
    pub id: String,
    pub name: String,
    pub scopes: Vec<String>,
}

/// Authorization configuration: whether keys are required, which keys are
/// accepted, and which path prefixes bypass the check.
#[derive(Debug, Clone)]
pub struct AuthConfig {
    pub require_auth: bool,
    pub api_keys: Vec<ApiKey>,
    pub bypass_paths: Vec<String>,
}

impl Default for AuthConfig {
    /// The default configuration: authorization off, no keys, and the
    /// health and stats endpoints exempt.
    fn default() -> (r: Self)
        ensures
            !r.require_auth,
            r.api_keys@.len() == 0,
            r.bypass_paths@.len() == 2,
            r.bypass_paths@[0]@ == "/health"@,
            r.bypass_paths@[1]@ == "/gateway/stats"@,
    {
        let bypass_paths: Vec<String> = vec!["/health".to_owned(), "/gateway/stats".to_owned()];
        AuthConfig { require_auth: false, api_keys: Vec::new(), bypass_paths }
    }
}

/// The decision the authorization layer takes on a request.
#[derive(Debug, Clone, Copy, PartialEq, Eq, Structural)]
pub enum AuthDecision {
    /// Let the request through.
    Allow,
    /// No API key was presented where one is required.
    Unauthorized,
    /// An API key was presented but is not known.
    Forbidden,
}

/// The request path starts with one of the configured bypass prefixes.
pub open spec fn spec_bypassed(config: AuthConfig, path: Seq<u8>) -> bool {
    exists|i: int|
        0 <= i < config.bypass_paths@.len() && spec_starts_with(
            path,
            encode_utf8(#[trigger] config.bypass_paths@[i]@),
        )
}

/// The presented key is one of the configured keys' identifiers.
pub open spec fn spec_key_known(config: AuthConfig, key: Seq<u8>) -> bool {
    exists|i: int|
        0 <= i < config.api_keys@.len() && encode_utf8(#[trigger] config.api_keys@[i].id@) == key
}

/// The authorization decision: everything is allowed while authorization
/// is off or on a bypass path; otherwise a request without a key is
/// unauthorized and one with an unknown key is forbidden.
pub open spec fn spec_authorize(config: AuthConfig, path: Seq<u8>, key: Option<Seq<u8>>) -> AuthDecision {
    if !config.require_auth {
        AuthDecision::Allow
    } else if spec_bypassed(config, path) {
        AuthDecision::Allow
    } else {
        match key {
            None => AuthDecision::Unauthorized,
            Some(k) => if spec_key_known(config, k) {
                AuthDecision::Allow
            } else {
                AuthDecision::Forbidden
            },
        }
    }
}

/// Decide whether a request on `path` presenting `api_key` may proceed
/// under this configuration.
pub fn authorize(config: &AuthConfig, path: &str, api_key: Option<&str>) -> (r: AuthDecision)
    ensures
        api_key is None ==> r == spec_authorize(*config, path.spec_bytes(), None),
        api_key matches Some(k) ==> r == spec_authorize(
            *config,
            path.spec_bytes(),
            Some(k.spec_bytes()),
        ),
{
    if !config.require_auth {
        return AuthDecision::Allow;
    }
    let n = config.bypass_paths.len();
    for i in 0..n
        invariant
            n == config.bypass_paths@.len(),
            forall|j: int|
                0 <= j < i ==> !spec_starts_with(
                    path.spec_bytes(),
                    encode_utf8(#[trigger] config.bypass_paths@[j]@),
                ),
    {
        if str_starts_with(path, config.bypass_paths[i].as_str()) {
            proof {
                assert(spec_bypassed(*config, path.spec_bytes()));
            }
            return AuthDecision::Allow;
        }
    }
    proof {
        assert(!spec_bypassed(*config, path.spec_bytes()));
    }
    match api_key {
        None => AuthDecision::Unauthorized,
        Some(key) => {
            let m = config.api_keys.len();
            for i in 0..m
                invariant
                    m == config.api_keys@.len(),
                    config.require_auth,
                    !spec_bypassed(*config, path.spec_bytes()),
                    api_key == Some(key),
                    forall|j: int|
                        0 <= j < i ==> encode_utf8(#[trigger] config.api_keys@[j].id@)
                            != key.spec_bytes(),
            {
                if str_eq(key, config.api_keys[i].id.as_str()) {
                    proof {
                        assert(spec_key_known(*config, key.spec_bytes()));
                    }
                    return AuthDecision::Allow;
                }
            }
            proof {
                assert(!spec_key_known(*config, key.spec_bytes()));
            }
            AuthDecision::Forbidden
        },
    }
}

} // verus!
