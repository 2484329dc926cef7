use goose_providers::base::Provider;
use goose_providers::base::ProviderMetadata;
use goose_providers::config::Config;
use goose_providers::config::ConfigError;
use goose_providers::factory::CreateError;
use goose_providers::factory::ProviderHandle;
use goose_providers::google::GoogleProvider;
use goose_providers::model::ModelConfig;
use goose_providers::python::PythonProvider;
use goose_providers::{create, providers};

fn model(name: &str) -> ModelConfig {
    ModelConfig::new(name.to_string())
}

fn store_with_key() -> Config {
    let mut config = Config::new();
    config.set_secret("GOOGLE_API_KEY", "secret-key");
    config
}

#[test]
fn create_google_binds_the_given_model() {
    let made = create("google", model("gemini-2.0-flash"), &store_with_key()).unwrap();
    assert_eq!(made.get_model_config(), model("gemini-2.0-flash"));
    assert!(matches!(made, ProviderHandle::Google(_)));
}

#[test]
fn create_python_binds_the_given_model() {
    let made = create("python", model("some-model"), &Config::new()).unwrap();
    assert_eq!(made.get_model_config(), model("some-model"));
    assert!(matches!(made, ProviderHandle::Python(_)));
}

#[test]
fn create_every_registered_backend() {
    let config = store_with_key();
    for metadata in providers() {
        let made = create(&metadata.name, model(&metadata.default_model), &config).unwrap();
        assert_eq!(made.get_model_config(), model(&metadata.default_model));
        assert_eq!(made.metadata(), metadata);
    }
}

#[test]
fn create_unknown_name_fails_and_names_it() {
    let failed = create("no-such-backend", model("m"), &store_with_key()).unwrap_err();
    assert_eq!(failed, CreateError::UnknownProvider("no-such-backend".to_string()));
    assert_eq!(failed.message(), "Unknown provider: no-such-backend");
}

#[test]
fn create_is_exact_about_names() {
    let config = store_with_key();
    for name in ["", "Google", "google ", " python", "googl", "pythons", "openai"] {
        let failed = create(name, model("m"), &config).unwrap_err();
        assert_eq!(failed, CreateError::UnknownProvider(name.to_string()));
        assert!(failed.message().ends_with(name));
    }
}

#[test]
fn create_google_without_key_reports_the_constructor_error() {
    let failed = create("google", model("m"), &Config::new()).unwrap_err();
    assert_eq!(
        failed,
        CreateError::Config(ConfigError::NotFound("GOOGLE_API_KEY".to_string()))
    );
    assert_eq!(failed.message(), "Configuration value not found: GOOGLE_API_KEY");
}

#[test]
fn create_google_ignores_a_plain_value_named_like_the_secret() {
    let mut config = Config::new();
    config.set("GOOGLE_API_KEY", "not-a-secret");
    assert!(create("google", model("m"), &config).is_err());
}

#[test]
fn providers_lists_the_registry_in_order() {
    let all = providers();
    let names: Vec<&str> = all.iter().map(|metadata| metadata.name.as_str()).collect();
    assert_eq!(names, vec!["google", "python"]);
}

#[test]
fn providers_need_no_configuration_and_are_never_bare() {
    for metadata in providers() {
        assert!(!metadata.known_models.is_empty());
        assert!(!metadata.config_keys.is_empty());
        assert!(!metadata.name.is_empty());
        assert!(!metadata.default_model.is_empty());
    }
}

#[test]
fn provider_metadata_matches_its_backend() {
    let google = create("google", model("m"), &store_with_key()).unwrap();
    assert_eq!(google.metadata().name, "google");
    let python = create("python", model("m"), &Config::new()).unwrap();
    assert_eq!(python.metadata().name, "python");
}

/// What any adapter tells of itself, whatever its backend.
fn describe<P: Provider>(adapter: &P) -> (ProviderMetadata, ModelConfig) {
    (P::metadata(), adapter.get_model_config())
}

#[test]
fn adapters_share_one_contract() {
    let google = GoogleProvider::from_env(model("g"), &store_with_key()).unwrap();
    let python = PythonProvider::from_env(model("p"), &Config::new()).unwrap();
    let (google_metadata, google_model) = describe(&google);
    let (python_metadata, python_model) = describe(&python);
    assert_eq!(google_metadata.name, "google");
    assert_eq!(google_model, model("g"));
    assert_eq!(python_metadata.name, "python");
    assert_eq!(python_model, model("p"));
    assert_eq!(providers(), vec![google_metadata, python_metadata]);
}

#[test]
fn create_error_copies_are_equal() {
    for error in [
        CreateError::UnknownProvider("x".to_string()),
        CreateError::Config(ConfigError::NotFound("GOOGLE_API_KEY".to_string())),
    ] {
        assert_eq!(error.clone(), error);
    }
}
