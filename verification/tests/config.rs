use library_system::config::{BackendTarget, Config, ConfigError, EnvValues};
use library_system::store::PoolError;

fn s(v: &str) -> Option<String> {
    Some(v.to_string())
}

fn full() -> EnvValues {
    EnvValues {
        authz_backend: None,
        opa_url: s("http://opa"),
        openfga_url: s("http://fga"),
        openfga_store_id: s("store"),
        openfga_model_id: s("model"),
        database_url: s("postgres://db"),
        bind_addr: s("0.0.0.0:3003"),
    }
}

#[test]
fn openfga_is_the_default_backend() {
    let c = Config::from_values(full()).unwrap();
    assert_eq!(c.authz_url, "http://fga");
    assert_eq!(c.openfga_store_id, s("store"));
    assert_eq!(c.openfga_model_id, s("model"));
    assert_eq!(c.database_url, "postgres://db");
    assert_eq!(c.bind_addr, "0.0.0.0:3003");
}

#[test]
fn opa_backend_needs_only_its_url() {
    let mut env = full();
    env.authz_backend = s("opa");
    env.openfga_url = None;
    env.openfga_store_id = None;
    let c = Config::from_values(env).unwrap();
    assert_eq!(c.authz_url, "http://opa");
    assert_eq!(c.openfga_store_id, None);
    assert_eq!(c.openfga_model_id, None);
}

#[test]
fn missing_variables_are_named_in_order() {
    let mut env = full();
    env.authz_backend = s("opa");
    env.opa_url = None;
    env.database_url = None;
    assert_eq!(Config::from_values(env).err(), Some(ConfigError::MissingVar("OPA_URL")));

    let mut env = full();
    env.openfga_store_id = None;
    env.bind_addr = None;
    assert_eq!(Config::from_values(env).err(), Some(ConfigError::MissingVar("OPENFGA_STORE_ID")));

    let mut env = full();
    env.authz_backend = s("something-else");
    env.openfga_url = None;
    assert_eq!(Config::from_values(env).err(), Some(ConfigError::MissingVar("OPENFGA_URL")));

    let mut env = full();
    env.openfga_model_id = None;
    assert_eq!(Config::from_values(env).err(), Some(ConfigError::MissingVar("OPENFGA_MODEL_ID")));

    let mut env = full();
    env.database_url = None;
    env.bind_addr = None;
    assert_eq!(
        Config::from_values(env).err(),
        Some(ConfigError::MissingVar("REVIEWS_DATABASE_URL"))
    );

    let mut env = full();
    env.bind_addr = None;
    assert_eq!(Config::from_values(env).err(), Some(ConfigError::MissingVar("REVIEWS_BIND_ADDR")));
}

#[test]
fn config_and_pool_error_messages() {
    assert_eq!(
        ConfigError::MissingVar("OPA_URL").to_string(),
        "missing required environment variable: OPA_URL"
    );
    assert_eq!(PoolError::Build("no".to_string()).to_string(), "failed to build pool: no");
}

#[test]
fn backend_follows_the_configuration() {
    let c = Config::from_values(full()).unwrap();
    match c.backend() {
        BackendTarget::OpenFga(t) => {
            assert_eq!(t.base_url, "http://fga");
            assert_eq!(t.store_id, "store");
            assert_eq!(t.model_id, "model");
        }
        BackendTarget::Opa(_) => panic!("expected OpenFGA"),
    }
    let mut env = full();
    env.authz_backend = s("opa");
    let c = Config::from_values(env).unwrap();
    match c.backend() {
        BackendTarget::Opa(t) => assert_eq!(t.base_url, "http://opa"),
        BackendTarget::OpenFga(_) => panic!("expected OPA"),
    }
}
