//! The registry of the backends that are built in, and the factory that
//! makes an adapter from a backend's name.

use vstd::prelude::*;
use crate::base::ConfigKeyView;
use crate::base::Provider;
use crate::base::ProviderMetadata;
use crate::base::ProviderMetadataView;
use crate::config::Config;
use crate::config::ConfigError;
use crate::config::ConfigErrorView;
use crate::config::ConfigView;
use crate::google::google_metadata;
use crate::google::GoogleProvider;
use crate::google::GoogleProviderView;
use crate::model::ModelConfig;
use crate::model::ModelConfigView;
use crate::python::python_metadata;
use crate::python::PythonProvider;
use crate::python::PythonProviderView;
use crate::text::same_text;

verus! {

/// An adapter of any built-in backend: what the factory hands out.
#[derive(Debug)]
pub enum ProviderHandle {
    Google(GoogleProvider),
    Python(PythonProvider),
}

/// Mathematical model of a [`ProviderHandle`].
pub enum ProviderHandleView {
    Google(GoogleProviderView),
    Python(PythonProviderView),
}

impl View for ProviderHandle {
    type V = ProviderHandleView;

    open spec fn view(&self) -> ProviderHandleView {
        match self {
            ProviderHandle::Google(adapter) => ProviderHandleView::Google(adapter@),
            ProviderHandle::Python(adapter) => ProviderHandleView::Python(adapter@),
        }
    }
}

impl ProviderHandleView {
    /// The model that the adapter is bound to.
    pub open spec fn model(self) -> ModelConfigView {
        match self {
            ProviderHandleView::Google(adapter) => adapter.model,
            ProviderHandleView::Python(adapter) => adapter.model,
        }
    }

    /// The descriptor of the adapter's backend.
    pub open spec fn metadata(self) -> ProviderMetadataView {
        match self {
            ProviderHandleView::Google(_) => google_metadata(),
            ProviderHandleView::Python(_) => python_metadata(),
        }
    }
}

impl ProviderHandle {
    /// The model that the adapter is bound to.
    pub fn get_model_config(&self) -> (model: ModelConfig)
        ensures
            model@ == self@.model(),
    {
        match self {
            ProviderHandle::Google(adapter) => adapter.get_model_config(),
            ProviderHandle::Python(adapter) => adapter.get_model_config(),
        }
    }

    /// The descriptor of the adapter's backend.
    pub fn metadata(&self) -> (metadata: ProviderMetadata)
        ensures
            metadata@ == self@.metadata(),
    {
        match self {
            ProviderHandle::Google(_) => GoogleProvider::metadata(),
            ProviderHandle::Python(_) => PythonProvider::metadata(),
        }
    }
}

/// Why no adapter was made.
#[derive(Debug, PartialEq, Eq)]
pub enum CreateError {
    /// No built-in backend has this name.
    UnknownProvider(String),
    /// The backend's constructor has failed, with this error.
    Config(ConfigError),
}

/// Mathematical model of a [`CreateError`].
pub enum CreateErrorView {
    UnknownProvider(Seq<char>),
    Config(ConfigErrorView),
}

impl View for CreateError {
    type V = CreateErrorView;

    open spec fn view(&self) -> CreateErrorView {
        match self {
            CreateError::UnknownProvider(name) => CreateErrorView::UnknownProvider(name@),
            CreateError::Config(error) => CreateErrorView::Config(error@),
        }
    }
}

impl Clone for CreateError {
    fn clone(&self) -> (copy: CreateError)
        ensures
            copy@ == self@,
    {
        match self {
            CreateError::UnknownProvider(name) => CreateError::UnknownProvider(name.clone()),
            CreateError::Config(error) => CreateError::Config(error.clone()),
        }
    }
}

impl CreateErrorView {
    /// The error as a sentence: an unknown name is named, a constructor's
    /// failure is told in the constructor's words.
    pub open spec fn message(self) -> Seq<char> {
        match self {
            CreateErrorView::UnknownProvider(name) => "Unknown provider: "@ + name,
            CreateErrorView::Config(ConfigErrorView::NotFound(key)) =>
                "Configuration value not found: "@ + key,
        }
    }
}

impl CreateError {
    /// The error as a sentence: see [`CreateErrorView::message`].
    pub fn message(&self) -> (text: String)
        ensures
            text@ == self@.message(),
    {
        match self {
            CreateError::UnknownProvider(name) => String::from_str("Unknown provider: ").concat(
                name.as_str(),
            ),
            CreateError::Config(error) => error.message(),
        }
    }
}

/// The descriptors of the built-in backends, in the order of the registry.
pub open spec fn registry() -> Seq<ProviderMetadataView> {
    seq![google_metadata(), python_metadata()]
}

/// What the factory makes of `name`: the adapter of the backend with that
/// name, as the backend's constructor builds it for `model` from `config`;
/// the constructor's error, where it fails; and for any other name an error
/// that holds the name.
pub open spec fn created(name: Seq<char>, model: ModelConfigView, config: ConfigView) -> Result<
    ProviderHandleView,
    CreateErrorView,
> {
    if name == "google"@ {
        match GoogleProviderView::from_env(model, config) {
            Ok(adapter) => Ok(ProviderHandleView::Google(adapter)),
            Err(error) => Err(CreateErrorView::Config(error)),
        }
    } else if name == "python"@ {
        Ok(ProviderHandleView::Python(PythonProviderView::from_env(model, config)))
    } else {
        Err(CreateErrorView::UnknownProvider(name))
    }
}

/// Enumerates the built-in backends. It reads no configuration and reaches
/// for no backend.
pub fn providers() -> (all: Vec<ProviderMetadata>)
    ensures
        all.deep_view() == registry(),
        forall|i: int|
            0 <= i < all.len() ==> (#[trigger] all[i])@.known_models.len() > 0
                && all[i]@.config_keys.len() > 0,
{
    let mut all: Vec<ProviderMetadata> = Vec::new();
    all.push(GoogleProvider::metadata());
    all.push(PythonProvider::metadata());
    assert(all.deep_view() == registry());
    all
}

/// Makes the adapter of the backend called `name`, bound to `model` and
/// built from `config`: see [`created`]. An adapter that is made is bound to
/// `model`; a name that no backend has comes back in the error.
pub fn create(name: &str, model: ModelConfig, config: &Config) -> (made: Result<
    ProviderHandle,
    CreateError,
>)
    ensures
        match created(name@, model@, config@) {
            Ok(adapter) => made matches Ok(provider) && provider@ == adapter,
            Err(error) => made matches Err(reported) && reported@ == error,
        },
        made matches Ok(provider) ==> provider@.model() == model@,
        name@ != "google"@ && name@ != "python"@ ==> (made matches Err(
            CreateError::UnknownProvider(unknown),
        ) && unknown@ == name@),
{
    if same_text(name, "google") {
        match GoogleProvider::from_env(model, config) {
            Ok(adapter) => Ok(ProviderHandle::Google(adapter)),
            Err(error) => Err(CreateError::Config(error)),
        }
    } else if same_text(name, "python") {
        match PythonProvider::from_env(model, config) {
            Ok(adapter) => Ok(ProviderHandle::Python(adapter)),
            Err(error) => Err(CreateError::Config(error)),
        }
    } else {
        Err(CreateError::UnknownProvider(String::from_str(name)))
    }
}

/// No two backends of the registry have the same name.
pub proof fn lemma_backend_names_differ()
    ensures
        forall|i: int, j: int|
            0 <= i < j < registry().len() ==> (#[trigger] registry()[i]).name != (
            #[trigger] registry()[j]).name,
{
    reveal_strlit("google");
    reveal_strlit("python");
    assert("google"@[0] != "python"@[0]);
}

/// Whether the store binds a value to `key`, where the key is declared as
/// required: among the secrets for a secret key, among the plain values for
/// any other.
pub open spec fn provides(config: ConfigView, key: ConfigKeyView) -> bool {
    key.required ==> if key.secret {
        config.get_secret(key.name) is Some
    } else {
        config.get(key.name) is Some
    }
}

/// The factory makes the adapter of a registered backend exactly where the
/// store provides every value that the backend's descriptor declares as
/// required.
pub proof fn lemma_created_where_required_keys_are_bound(
    i: int,
    model: ModelConfigView,
    config: ConfigView,
)
    requires
        0 <= i < registry().len(),
    ensures
        created(registry()[i].name, model, config) is Ok <==> forall|k: int|
            0 <= k < registry()[i].config_keys.len() ==> provides(
                config,
                #[trigger] registry()[i].config_keys[k],
            ),
{
    lemma_backend_names_differ();
    if i == 0 {
        let keys = registry()[0].config_keys;
        assert(provides(config, keys[0]) <==> config.get_secret("GOOGLE_API_KEY"@) is Some);
        assert(provides(config, keys[1]));
    }
}

/// An adapter that the factory makes is bound to the model that the factory
/// was given, whatever the backend and the configuration.
pub proof fn lemma_created_is_bound_to_model(
    name: Seq<char>,
    model: ModelConfigView,
    config: ConfigView,
)
    requires
        created(name, model, config) is Ok,
    ensures
        created(name, model, config)->Ok_0.model() == model,
{
}

/// A name that no built-in backend has makes the factory fail with an
/// error that holds the name, and whose message ends in it.
pub proof fn lemma_unknown_name_is_reported(
    name: Seq<char>,
    model: ModelConfigView,
    config: ConfigView,
)
    requires
        forall|i: int| 0 <= i < registry().len() ==> (#[trigger] registry()[i]).name != name,
    ensures
        created(name, model, config) == Err::<ProviderHandleView, CreateErrorView>(
            CreateErrorView::UnknownProvider(name),
        ),
        name.is_suffix_of(created(name, model, config)->Err_0.message()),
{
    assert(registry()[0].name == "google"@);
    assert(registry()[1].name == "python"@);
    let message = "Unknown provider: "@ + name;
    assert(message.subrange(message.len() - name.len(), message.len() as int) == name);
}

/// The factory makes an adapter for the name of every backend of the
/// registry whose constructor succeeds, and that adapter's descriptor is the
/// registry's.
pub proof fn lemma_registered_names_are_known(
    i: int,
    model: ModelConfigView,
    config: ConfigView,
)
    requires
        0 <= i < registry().len(),
    ensures
        created(registry()[i].name, model, config) matches Ok(adapter) ==> adapter.metadata()
            == registry()[i],
        !(created(registry()[i].name, model, config) matches Err(
            CreateErrorView::UnknownProvider(_),
        )),
{
    lemma_backend_names_differ();
}

} // verus!
