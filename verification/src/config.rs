//! The review service's configuration, taken from its environment.

use vstd::prelude::*;

use crate::opa::OpaTarget;
use crate::openfga::OpenFgaTarget;

verus! {

/// The service's settings.
#[derive(Debug, Clone)]
pub struct Config {
    pub database_url: String,
    pub bind_addr: String,
    /// Base URL of the active authorization backend (OpenFGA or OPA).
    pub authz_url: String,
    /// Set only when the backend is OpenFGA (the default).
    pub openfga_store_id: Option<String>,
    pub openfga_model_id: Option<String>,
}

/// A required variable is not set.
#[derive(Debug, Clone, Copy, PartialEq, Eq)]
pub enum ConfigError {
    MissingVar(&'static str),
}

/// The text that `Display` shows for a configuration error.
pub open spec fn config_error_message(e: ConfigError) -> Seq<char> {
    match e {
        ConfigError::MissingVar(name) => "missing required environment variable: "@ + name@,
    }
}

impl ConfigError {
    /// The error's message.
    pub fn to_string(&self) -> (s: String)
        ensures
            s@ == config_error_message(*self),
    {
        match self {
            ConfigError::MissingVar(name) => "missing required environment variable: ".to_string().concat(
                name,
            ),
        }
    }
}

/// The values of the variables the service reads (`None` when unset or not
/// text).
#[derive(Debug, Clone)]
pub struct EnvValues {
    /// `AUTHZ_BACKEND`
    pub authz_backend: Option<String>,
    /// `OPA_URL`
    pub opa_url: Option<String>,
    /// `OPENFGA_URL`
    pub openfga_url: Option<String>,
    /// `OPENFGA_STORE_ID`
    pub openfga_store_id: Option<String>,
    /// `OPENFGA_MODEL_ID`
    pub openfga_model_id: Option<String>,
    /// `REVIEWS_DATABASE_URL`
    pub database_url: Option<String>,
    /// `REVIEWS_BIND_ADDR`
    pub bind_addr: Option<String>,
}

/// The backend is OPA only when `AUTHZ_BACKEND` says `opa`; otherwise (unset
/// too) it is OpenFGA.
pub open spec fn uses_opa(env: EnvValues) -> bool {
    env.authz_backend matches Some(b) && b@ == "opa"@
}

/// The first required variable that is missing, in the order they are read:
/// the backend's variables, then the database URL, then the bind address.
pub open spec fn missing_var(env: EnvValues) -> Option<Seq<char>> {
    if uses_opa(env) && env.opa_url is None {
        Some("OPA_URL"@)
    } else if !uses_opa(env) && env.openfga_url is None {
        Some("OPENFGA_URL"@)
    } else if !uses_opa(env) && env.openfga_store_id is None {
        Some("OPENFGA_STORE_ID"@)
    } else if !uses_opa(env) && env.openfga_model_id is None {
        Some("OPENFGA_MODEL_ID"@)
    } else if env.database_url is None {
        Some("REVIEWS_DATABASE_URL"@)
    } else if env.bind_addr is None {
        Some("REVIEWS_BIND_ADDR"@)
    } else {
        None
    }
}

/// The configuration that the variables give when none is missing.
pub open spec fn config_of(env: EnvValues, c: Config) -> bool {
    &&& c.database_url == env.database_url->0
    &&& c.bind_addr == env.bind_addr->0
    &&& if uses_opa(env) {
        &&& c.authz_url == env.opa_url->0
        &&& c.openfga_store_id is None
        &&& c.openfga_model_id is None
    } else {
        &&& c.authz_url == env.openfga_url->0
        &&& c.openfga_store_id == env.openfga_store_id
        &&& c.openfga_model_id == env.openfga_model_id
    }
}

/// `AUTHZ_BACKEND` is exactly the text `opa`.
pub open spec fn backend_named_opa(env: EnvValues) -> bool {
    &&& env.authz_backend is Some
    &&& env.authz_backend->0@ == "opa"@
}

/// The OPA backend is chosen exactly when `AUTHZ_BACKEND` is the text `opa`.
/// Under any other value (`openfga` among them), or none, `OPA_URL` is never
/// asked for, and with the OpenFGA variables, the database URL and the bind
/// address set the configuration points at OpenFGA with that store and
/// model. Under `opa`, with `OPA_URL`, the database URL and the bind address
/// set, it points at OPA and holds no OpenFGA store or model.
pub proof fn law_backend_choice(env: EnvValues, c: Config)
    ensures
        uses_opa(env) <==> backend_named_opa(env),
        !backend_named_opa(env) ==> missing_var(env) != Some("OPA_URL"@),
        !backend_named_opa(env) && env.openfga_url is Some && env.openfga_store_id is Some
            && env.openfga_model_id is Some && env.database_url is Some && env.bind_addr is Some
            ==> missing_var(env) is None && (config_of(env, c) ==> {
            &&& c.authz_url == env.openfga_url->0
            &&& c.openfga_store_id == env.openfga_store_id
            &&& c.openfga_model_id == env.openfga_model_id
            &&& c.database_url == env.database_url->0
            &&& c.bind_addr == env.bind_addr->0
        }),
        backend_named_opa(env) && env.opa_url is Some && env.database_url is Some
            && env.bind_addr is Some ==> missing_var(env) is None && (config_of(env, c) ==> {
            &&& c.authz_url == env.opa_url->0
            &&& c.openfga_store_id is None
            &&& c.openfga_model_id is None
            &&& c.database_url == env.database_url->0
            &&& c.bind_addr == env.bind_addr->0
        }),
{
    reveal_strlit("OPA_URL");
    reveal_strlit("OPENFGA_URL");
    reveal_strlit("OPENFGA_STORE_ID");
    reveal_strlit("OPENFGA_MODEL_ID");
    reveal_strlit("REVIEWS_DATABASE_URL");
    reveal_strlit("REVIEWS_BIND_ADDR");
    assert("OPA_URL"@[2] != "OPENFGA_URL"@[2]);
    assert("OPA_URL"@.len() != "OPENFGA_STORE_ID"@.len());
    assert("OPA_URL"@.len() != "OPENFGA_MODEL_ID"@.len());
    assert("OPA_URL"@.len() != "REVIEWS_DATABASE_URL"@.len());
    assert("OPA_URL"@.len() != "REVIEWS_BIND_ADDR"@.len());
}

impl Config {
    /// Builds the configuration from the variables' values.
    pub fn from_values(env: EnvValues) -> (r: Result<Config, ConfigError>)
        ensures
            match missing_var(env) {
                Some(name) => r matches Err(ConfigError::MissingVar(n)) && n@ == name,
                None => r matches Ok(c) && config_of(env, c),
            },
            !backend_named_opa(env) ==> !(r matches Err(ConfigError::MissingVar(n)) && n@
                == "OPA_URL"@),
            !backend_named_opa(env) && env.openfga_url is Some && env.openfga_store_id is Some
                && env.openfga_model_id is Some && env.database_url is Some && env.bind_addr is Some
                ==> (r matches Ok(c) && c.authz_url == env.openfga_url->0 && c.openfga_store_id
                == env.openfga_store_id && c.openfga_model_id == env.openfga_model_id),
            backend_named_opa(env) && env.opa_url is Some && env.database_url is Some
                && env.bind_addr is Some ==> (r matches Ok(c) && c.authz_url == env.opa_url->0
                && c.openfga_store_id is None && c.openfga_model_id is None),
    {
        proof {
            law_backend_choice(env, vstd::pervasive::arbitrary());
        }
        let opa = match &env.authz_backend {
            Some(b) => *b == "opa".to_string(),
            None => false,
        };
        let (authz_url, openfga_store_id, openfga_model_id) = if opa {
            let url = match env.opa_url {
                Some(u) => u,
                None => return Err(ConfigError::MissingVar("OPA_URL")),
            };
            (url, None, None)
        } else {
            let url = match env.openfga_url {
                Some(u) => u,
                None => return Err(ConfigError::MissingVar("OPENFGA_URL")),
            };
            let store_id = match env.openfga_store_id {
                Some(s) => s,
                None => return Err(ConfigError::MissingVar("OPENFGA_STORE_ID")),
            };
            let model_id = match env.openfga_model_id {
                Some(m) => m,
                None => return Err(ConfigError::MissingVar("OPENFGA_MODEL_ID")),
            };
            (url, Some(store_id), Some(model_id))
        };
        let database_url = match env.database_url {
            Some(d) => d,
            None => return Err(ConfigError::MissingVar("REVIEWS_DATABASE_URL")),
        };
        let bind_addr = match env.bind_addr {
            Some(b) => b,
            None => return Err(ConfigError::MissingVar("REVIEWS_BIND_ADDR")),
        };
        Ok(Config { database_url, bind_addr, authz_url, openfga_store_id, openfga_model_id })
    }
}

/// The authorization backend a configuration points at.
#[derive(Debug, Clone, PartialEq, Eq)]
pub enum BackendTarget {
    OpenFga(OpenFgaTarget),
    Opa(OpaTarget),
}

impl Config {
    /// OpenFGA when both a store and a model are configured, OPA otherwise;
    /// either way at `authz_url`.
    pub fn backend(&self) -> (r: BackendTarget)
        ensures
            (self.openfga_store_id is Some && self.openfga_model_id is Some) ==> r
                == BackendTarget::OpenFga(
                OpenFgaTarget {
                    base_url: self.authz_url,
                    store_id: self.openfga_store_id->0,
                    model_id: self.openfga_model_id->0,
                },
            ),
            !(self.openfga_store_id is Some && self.openfga_model_id is Some) ==> r
                == BackendTarget::Opa(OpaTarget { base_url: self.authz_url }),
    {
        match (&self.openfga_store_id, &self.openfga_model_id) {
            (Some(store_id), Some(model_id)) => BackendTarget::OpenFga(
                OpenFgaTarget::new(self.authz_url.clone(), store_id.clone(), model_id.clone()),
            ),
            _ => BackendTarget::Opa(OpaTarget { base_url: self.authz_url.clone() }),
        }
    }
}

} // verus!
