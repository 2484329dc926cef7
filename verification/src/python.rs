//! The adapter for a backend that runs as a script: its descriptor, its
//! construction from configuration, the bootstrap of the isolated
//! interpreter environment, the command that runs the script, and the
//! reading of what the script wrote.
//!
//! The adapter runs nothing itself. The bootstrap is a conversation with the
//! caller: [`PythonProvider::ensure_venv`] gives the first [`VenvStep`]; the
//! caller looks for the directory or runs the command that the step asks
//! for, and reports to [`PythonProvider::venv_probed`] or
//! [`PythonProvider::venv_ran`], which give the next step. [`venv_run`] is
//! the course that a bootstrap takes. Once the environment is ready, the
//! caller runs [`PythonProvider::execute_command`] and hands the outcome to
//! [`PythonProvider::execute_result`].

use vstd::prelude::*;
use serde_json::Value;
use crate::base::ConfigKey;
use crate::base::ConfigKeyView;
use crate::base::Provider;
use crate::base::ProviderMetadata;
use crate::base::ProviderMetadataView;
use crate::base::ProviderUsage;
use crate::base::ProviderUsageView;
use crate::base::Usage;
use crate::config::Config;
use crate::config::ConfigError;
use crate::config::ConfigView;
use crate::errors::ProviderError;
use crate::errors::ProviderErrorView;
use crate::json::error_text;
use crate::json::json_error_text;
use crate::json::json_parsed;
use crate::json::json_rendered;
use crate::json::parse_json;
use crate::json::render_json;
use crate::lossy::lossy_text;
use crate::lossy::text_of_bytes;
use crate::model::ModelConfig;
use crate::model::ModelConfigView;
use crate::process::CommandSpec;
use crate::process::CommandSpecView;
use crate::process::RunOutcome;
use crate::process::RunOutcomeView;
use crate::text::owned_texts;
use crate::text::texts_of;
use crate::words::split_words;
use crate::words::words_of;

verus! {

/// The command that runs the script where none is configured: interpreter
/// and script.
pub const PYTHON_PROVIDER_CMD: &'static str = "./venv/bin/python ./wrapper.py";

/// The model that an adapter is bound to where none is asked for.
pub const PYTHON_PROVIDER_DEFAULT_MODEL: &'static str = "gemini-2.0-flash-thinking-exp";

/// The models that the adapter knows by name.
pub const PYTHON_PROVIDER_KNOWN_MODELS: [&'static str; 1] = [PYTHON_PROVIDER_DEFAULT_MODEL];

/// Where the models are documented.
pub const PYTHON_PROVIDER_DOC_URL: &'static str = "https://ai.google.dev/gemini-api/docs";

/// The directory of the isolated interpreter environment.
pub const VENV_DIR: &'static str = "venv";

/// The interpreter that creates the environment.
pub const SYSTEM_PYTHON: &'static str = "/usr/bin/python3";

/// The interpreter that runs the script where the configured command names
/// none.
pub const DEFAULT_INTERPRETER: &'static str = "./venv/bin/python";

/// The script that is run where the configured command names none.
pub const DEFAULT_SCRIPT: &'static str = "./wrapper.py";

/// An adapter bound to one model, served by a script.
#[derive(Debug)]
pub struct PythonProvider {
    script_cmd: String,
    model: ModelConfig,
}

/// Mathematical model of a [`PythonProvider`].
pub struct PythonProviderView {
    pub script_cmd: Seq<char>,
    pub model: ModelConfigView,
}

impl View for PythonProvider {
    type V = PythonProviderView;

    closed spec fn view(&self) -> PythonProviderView {
        PythonProviderView { script_cmd: self.script_cmd@, model: self.model@ }
    }
}

impl PythonProviderView {
    /// The adapter for `model` that the store `config` gives: the command is
    /// the value of `PYTHON_PROVIDER_CMD`, or the local default.
    pub open spec fn from_env(model: ModelConfigView, config: ConfigView) -> PythonProviderView {
        PythonProviderView {
            script_cmd: match config.get("PYTHON_PROVIDER_CMD"@) {
                Some(command) => command,
                None => PYTHON_PROVIDER_CMD@,
            },
            model,
        }
    }
}

/// The descriptor of the adapter.
pub open spec fn python_metadata() -> ProviderMetadataView {
    ProviderMetadataView {
        name: "python"@,
        display_name: "Python Provider"@,
        description: "Provider using a command-line Python script (with venv support) for the Gemini API"@,
        default_model: PYTHON_PROVIDER_DEFAULT_MODEL@,
        known_models: texts_of(PYTHON_PROVIDER_KNOWN_MODELS@),
        model_doc_link: PYTHON_PROVIDER_DOC_URL@,
        config_keys: seq![
            ConfigKeyView {
                name: "PYTHON_PROVIDER_CMD"@,
                required: false,
                secret: false,
                default: Some(PYTHON_PROVIDER_CMD@),
            },
        ],
    }
}

/// Where the store names no command, the adapter runs the command that its
/// descriptor declares as the default.
pub proof fn lemma_python_command_defaults_as_declared(model: ModelConfigView, config: ConfigView)
    requires
        config.get("PYTHON_PROVIDER_CMD"@) is None,
    ensures
        Some(PythonProviderView::from_env(model, config).script_cmd)
            == python_metadata().config_keys[0].default,
        python_metadata().config_keys[0].name == "PYTHON_PROVIDER_CMD"@,
{
}

/// Which bootstrap command is running.
#[derive(Debug, Clone, Copy, PartialEq, Eq, Structural)]
pub enum VenvStage {
    /// The system interpreter creates the environment.
    Create,
    /// The environment's installer installs the required packages.
    Install,
}

/// The word of a bootstrap that the environment is there. Only a bootstrap
/// gives one, and the command that runs the script takes one: the script is
/// not run on an environment that nobody has looked after.
#[derive(Debug, PartialEq, Eq)]
pub struct VenvReady {
    sealed: (),
}

/// What the caller of the bootstrap does next.
#[derive(Debug, PartialEq, Eq)]
pub enum VenvStep {
    /// Find out whether the directory [`VENV_DIR`] exists, and report it with
    /// [`PythonProvider::venv_probed`].
    Probe,
    /// Run `command`, and report its outcome with
    /// [`PythonProvider::venv_ran`] for `stage`.
    Run { command: CommandSpec, stage: VenvStage },
    /// The environment is there.
    Ready(VenvReady),
    /// The bootstrap has failed.
    Fail(ProviderError),
}

/// Mathematical model of a [`VenvStep`].
pub enum VenvStepView {
    Probe,
    Run { command: CommandSpecView, stage: VenvStage },
    Ready,
    Fail(ProviderErrorView),
}

impl View for VenvStep {
    type V = VenvStepView;

    open spec fn view(&self) -> VenvStepView {
        match self {
            VenvStep::Probe => VenvStepView::Probe,
            VenvStep::Run { command, stage } => VenvStepView::Run {
                command: command@,
                stage: *stage,
            },
            VenvStep::Ready(_) => VenvStepView::Ready,
            VenvStep::Fail(error) => VenvStepView::Fail(error@),
        }
    }
}

/// The command that creates the environment.
pub open spec fn create_command() -> CommandSpecView {
    CommandSpecView {
        program: SYSTEM_PYTHON@,
        args: seq!["-m"@, "venv"@, VENV_DIR@],
        capture_stdout: false,
    }
}

/// The command that installs the required packages into the environment.
pub open spec fn install_command() -> CommandSpecView {
    CommandSpecView {
        program: VENV_DIR@ + "/bin/pip"@,
        args: seq!["install"@, "google-genai"@],
        capture_stdout: false,
    }
}

/// What follows the probe of the environment's directory: nothing is run
/// where it exists, and the environment is created where it does not.
pub open spec fn after_probe(exists: bool) -> VenvStepView {
    if exists {
        VenvStepView::Ready
    } else {
        VenvStepView::Run { command: create_command(), stage: VenvStage::Create }
    }
}

/// How a bootstrap failure begins, by stage, where the command could not be
/// started.
pub open spec fn spawn_failure_context(stage: VenvStage) -> Seq<char> {
    match stage {
        VenvStage::Create => "Failed to create venv: "@,
        VenvStage::Install => "Failed to install dependencies: "@,
    }
}

/// How a bootstrap failure begins, by stage, where the command ended with a
/// status other than zero.
pub open spec fn exit_failure_context(stage: VenvStage) -> Seq<char> {
    match stage {
        VenvStage::Create => "Venv creation failed: "@,
        VenvStage::Install => "Dependency installation failed: "@,
    }
}

/// What follows the outcome of the bootstrap command of `stage`: a failure
/// ends the bootstrap, with what the command wrote to its error output;
/// after a creation the packages are installed; after an installation the
/// environment is ready.
pub open spec fn after_run(stage: VenvStage, outcome: RunOutcomeView) -> VenvStepView {
    match outcome {
        RunOutcomeView::SpawnFailed(reason) => VenvStepView::Fail(
            ProviderErrorView::RequestFailed(spawn_failure_context(stage) + reason),
        ),
        RunOutcomeView::Exited(output) => if !output.success {
            VenvStepView::Fail(
                ProviderErrorView::RequestFailed(
                    exit_failure_context(stage) + text_of_bytes(output.stderr),
                ),
            )
        } else {
            match stage {
                VenvStage::Create => VenvStepView::Run {
                    command: install_command(),
                    stage: VenvStage::Install,
                },
                VenvStage::Install => VenvStepView::Ready,
            }
        },
    }
}

/// What a bootstrap meets: whether the environment's directory exists, and
/// what running each of the two bootstrap commands comes to.
pub struct VenvWorld {
    pub exists: bool,
    pub create: RunOutcomeView,
    pub install: RunOutcomeView,
}

impl VenvWorld {
    /// What running the command of `stage` comes to.
    pub open spec fn outcome(self, stage: VenvStage) -> RunOutcomeView {
        match stage {
            VenvStage::Create => self.create,
            VenvStage::Install => self.install,
        }
    }
}

/// Whether a command ran and exited with status zero.
pub open spec fn succeeded(outcome: RunOutcomeView) -> bool {
    outcome matches RunOutcomeView::Exited(output) && output.success
}

/// The course of a bootstrap: the commands that were run, in order, and the
/// step that it has come to.
pub struct VenvRun {
    pub commands: Seq<CommandSpecView>,
    pub end: VenvStepView,
}

/// The course that a bootstrap takes from `step` on in `world`, in at most
/// `budget` steps: a probe is answered by [`after_probe`], a command is run
/// and its outcome answered by [`after_run`].
pub open spec fn venv_run(step: VenvStepView, world: VenvWorld, budget: nat) -> VenvRun
    decreases budget,
{
    if budget == 0 {
        VenvRun { commands: seq![], end: step }
    } else {
        match step {
            VenvStepView::Probe => venv_run(after_probe(world.exists), world, (budget - 1) as nat),
            VenvStepView::Run { command, stage } => {
                let rest = venv_run(
                    after_run(stage, world.outcome(stage)),
                    world,
                    (budget - 1) as nat,
                );
                VenvRun { commands: seq![command] + rest.commands, end: rest.end }
            },
            _ => VenvRun { commands: seq![], end: step },
        }
    }
}

/// Where the environment's directory exists, the bootstrap runs no command
/// and the environment is ready.
pub proof fn lemma_existing_venv_runs_nothing(world: VenvWorld, budget: nat)
    requires
        world.exists,
        budget >= 1,
    ensures
        venv_run(VenvStepView::Probe, world, budget) == (VenvRun {
            commands: seq![],
            end: VenvStepView::Ready,
        }),
{
    reveal_with_fuel(venv_run, 3);
}

/// Where the directory is missing and the creation fails, the bootstrap runs
/// the creation alone and fails: nothing is installed.
pub proof fn lemma_failed_creation_stops(world: VenvWorld, budget: nat)
    requires
        !world.exists,
        !succeeded(world.create),
        budget >= 2,
    ensures
        venv_run(VenvStepView::Probe, world, budget).commands == seq![create_command()],
        venv_run(VenvStepView::Probe, world, budget).end == after_run(
            VenvStage::Create,
            world.create,
        ),
        venv_run(VenvStepView::Probe, world, budget).end is Fail,
{
    reveal_with_fuel(venv_run, 4);
}

/// Where the directory is missing and the creation succeeds, the bootstrap
/// runs the creation and then the installation, and ends as the
/// installation does: ready, or failed.
pub proof fn lemma_creation_then_installation(world: VenvWorld, budget: nat)
    requires
        !world.exists,
        succeeded(world.create),
        budget >= 3,
    ensures
        venv_run(VenvStepView::Probe, world, budget).commands == seq![
            create_command(),
            install_command(),
        ],
        venv_run(VenvStepView::Probe, world, budget).end == after_run(
            VenvStage::Install,
            world.install,
        ),
        succeeded(world.install) <==> venv_run(VenvStepView::Probe, world, budget).end
            == VenvStepView::Ready,
        !succeeded(world.install) <==> venv_run(VenvStepView::Probe, world, budget).end is Fail,
{
    reveal_with_fuel(venv_run, 5);
}

/// Every bootstrap ends, ready or failed, after two commands at most.
pub proof fn lemma_bootstrap_ends(world: VenvWorld, budget: nat)
    requires
        budget >= 3,
    ensures
        venv_run(VenvStepView::Probe, world, budget).commands.len() <= 2,
        venv_run(VenvStepView::Probe, world, budget).end is Ready || venv_run(
            VenvStepView::Probe,
            world,
            budget,
        ).end is Fail,
{
    if world.exists {
        lemma_existing_venv_runs_nothing(world, budget);
    } else if succeeded(world.create) {
        lemma_creation_then_installation(world, budget);
    } else {
        lemma_failed_creation_stops(world, budget);
    }
}

/// What the outcome of the script comes to. The script has succeeded where
/// it exited with status zero and its output, read as text, is one JSON
/// document: the result is the value of that document, and what the script
/// wrote to its error output is passed over. Any other outcome is a failed
/// request: one that names what the script wrote to its error output, where
/// it exited with another status, and one in the words of the JSON parser,
/// where the output is no JSON document.
pub open spec fn script_result(outcome: RunOutcomeView) -> Result<Value, ProviderErrorView> {
    match outcome {
        RunOutcomeView::SpawnFailed(reason) => Err(
            ProviderErrorView::RequestFailed("Failed to execute command: "@ + reason),
        ),
        RunOutcomeView::Exited(output) => if !output.success {
            Err(
                ProviderErrorView::RequestFailed(
                    "Command failed: "@ + text_of_bytes(output.stderr),
                ),
            )
        } else {
            match json_parsed(text_of_bytes(output.stdout)) {
                Ok(value) => Ok(value),
                Err(error) => Err(
                    ProviderErrorView::RequestFailed(
                        "Failed to parse JSON: "@ + json_error_text(error),
                    ),
                ),
            }
        },
    }
}

/// The command that runs the script, from the words of the configured
/// command: the first word is the interpreter and the second the script,
/// each with its default; the prompt follows, and the API key where there is
/// one.
pub open spec fn script_command(
    words: Seq<Seq<char>>,
    prompt: Seq<char>,
    api_key: Option<Seq<char>>,
) -> CommandSpecView {
    CommandSpecView {
        program: if words.len() > 0 {
            words[0]
        } else {
            DEFAULT_INTERPRETER@
        },
        args: seq![
            if words.len() > 1 {
                words[1]
            } else {
                DEFAULT_SCRIPT@
            },
            "--prompt"@,
            prompt,
        ] + match api_key {
            Some(key) => seq!["--api-key"@, key],
            None => seq![],
        },
        capture_stdout: true,
    }
}

/// Computes [`script_command`].
pub fn command_from_words(words: &Vec<String>, prompt: &str, api_key: Option<String>) -> (command:
    CommandSpec)
    ensures
        command@ == script_command(
            words.deep_view(),
            prompt@,
            match api_key {
                Some(key) => Some(key@),
                None => None,
            },
        ),
{
    let program = if words.len() > 0 {
        words[0].clone()
    } else {
        String::from_str(DEFAULT_INTERPRETER)
    };
    let script = if words.len() > 1 {
        words[1].clone()
    } else {
        String::from_str(DEFAULT_SCRIPT)
    };
    let mut args: Vec<String> = Vec::new();
    args.push(script);
    args.push(String::from_str("--prompt"));
    args.push(String::from_str(prompt));
    if let Some(key) = api_key {
        args.push(String::from_str("--api-key"));
        args.push(key);
    }
    let command = CommandSpec { program, args, capture_stdout: true };
    assert(command@.args == script_command(
        words.deep_view(),
        prompt@,
        match api_key {
            Some(key) => Some(key@),
            None => None,
        },
    ).args);
    command
}

impl Provider for PythonProvider {
    open spec fn bound_model(&self) -> ModelConfigView {
        self@.model
    }

    /// The descriptor of the adapter. It needs no instance and reads no
    /// configuration.
    fn metadata() -> (metadata: ProviderMetadata)
        ensures
            metadata@ == python_metadata(),
    {
        let known_models = owned_texts(&PYTHON_PROVIDER_KNOWN_MODELS);
        let mut config_keys: Vec<ConfigKey> = Vec::new();
        config_keys.push(
            ConfigKey::new("PYTHON_PROVIDER_CMD", false, false, Some(PYTHON_PROVIDER_CMD)),
        );
        assert(config_keys.deep_view() == python_metadata().config_keys);
        ProviderMetadata::new(
            "python",
            "Python Provider",
            "Provider using a command-line Python script (with venv support) for the Gemini API",
            PYTHON_PROVIDER_DEFAULT_MODEL,
            known_models,
            PYTHON_PROVIDER_DOC_URL,
            config_keys,
        )
    }

    /// The model that the adapter is bound to.
    fn get_model_config(&self) -> (model: ModelConfig)
        ensures
            model@ == self@.model,
    {
        self.model.clone()
    }
}

impl PythonProvider {
    /// Builds the adapter for `model` from the store: see
    /// [`PythonProviderView::from_env`]. Nothing can go wrong.
    pub fn from_env(model: ModelConfig, config: &Config) -> (built: Result<
        PythonProvider,
        ConfigError,
    >)
        ensures
            built matches Ok(adapter) && adapter@ == PythonProviderView::from_env(model@, config@),
    {
        let script_cmd = match config.get("PYTHON_PROVIDER_CMD") {
            Some(command) => command,
            None => String::from_str(PYTHON_PROVIDER_CMD),
        };
        Ok(PythonProvider { script_cmd, model })
    }

    /// The configured command: interpreter and script.
    pub fn script_cmd(&self) -> (command: &str)
        ensures
            command@ == self@.script_cmd,
    {
        self.script_cmd.as_str()
    }

    /// Begins the bootstrap of the environment: with a look at its
    /// directory.
    pub fn ensure_venv(&self) -> (step: VenvStep)
        ensures
            step@ == VenvStepView::Probe,
    {
        VenvStep::Probe
    }

    /// Goes on with the bootstrap after the probe: see [`after_probe`].
    pub fn venv_probed(exists: bool) -> (step: VenvStep)
        ensures
            step@ == after_probe(exists),
    {
        if exists {
            VenvStep::Ready(VenvReady { sealed: () })
        } else {
            let mut args: Vec<String> = Vec::new();
            args.push(String::from_str("-m"));
            args.push(String::from_str("venv"));
            args.push(String::from_str(VENV_DIR));
            let command = CommandSpec {
                program: String::from_str(SYSTEM_PYTHON),
                args,
                capture_stdout: false,
            };
            assert(command@.args == create_command().args);
            VenvStep::Run { command, stage: VenvStage::Create }
        }
    }

    /// Goes on with the bootstrap after the command of `stage`: see
    /// [`after_run`].
    pub fn venv_ran(stage: VenvStage, outcome: RunOutcome) -> (step: VenvStep)
        ensures
            step@ == after_run(stage, outcome@),
    {
        match outcome {
            RunOutcome::SpawnFailed(reason) => {
                let context = match stage {
                    VenvStage::Create => "Failed to create venv: ",
                    VenvStage::Install => "Failed to install dependencies: ",
                };
                VenvStep::Fail(ProviderError::request_failed(context, reason.as_str()))
            },
            RunOutcome::Exited(output) => {
                if !output.success {
                    let context = match stage {
                        VenvStage::Create => "Venv creation failed: ",
                        VenvStage::Install => "Dependency installation failed: ",
                    };
                    let stderr = lossy_text(&output.stderr);
                    VenvStep::Fail(ProviderError::request_failed(context, stderr.as_str()))
                } else {
                    match stage {
                        VenvStage::Create => {
                            let mut args: Vec<String> = Vec::new();
                            args.push(String::from_str("install"));
                            args.push(String::from_str("google-genai"));
                            let command = CommandSpec {
                                program: String::from_str(VENV_DIR).concat("/bin/pip"),
                                args,
                                capture_stdout: false,
                            };
                            assert(command@.args == install_command().args);
                            VenvStep::Run { command, stage: VenvStage::Install }
                        },
                        VenvStage::Install => VenvStep::Ready(VenvReady { sealed: () }),
                    }
                }
            },
        }
    }

    /// The command that runs the script on `prompt`, now that the environment
    /// is ready: see [`script_command`]. `api_key` is the API key found in
    /// the process environment, if any.
    pub fn execute_command(
        &self,
        _ready: VenvReady,
        prompt: &str,
        api_key: Option<String>,
    ) -> (command: CommandSpec)
        ensures
            command@ == script_command(
                words_of(self@.script_cmd),
                prompt@,
                match api_key {
                    Some(key) => Some(key@),
                    None => None,
                },
            ),
    {
        let words = split_words(self.script_cmd.as_str());
        command_from_words(&words, prompt, api_key)
    }

    /// Reads the outcome of the script: see [`script_result`].
    pub fn execute_result(outcome: RunOutcome) -> (response: Result<Value, ProviderError>)
        ensures
            match script_result(outcome@) {
                Ok(value) => response == Ok::<Value, ProviderError>(value),
                Err(error) => response matches Err(reported) && reported@ == error,
            },
    {
        match outcome {
            RunOutcome::SpawnFailed(reason) => Err(
                ProviderError::request_failed("Failed to execute command: ", reason.as_str()),
            ),
            RunOutcome::Exited(output) => {
                if !output.success {
                    let stderr = lossy_text(&output.stderr);
                    Err(ProviderError::request_failed("Command failed: ", stderr.as_str()))
                } else {
                    let stdout = lossy_text(&output.stdout);
                    match parse_json(stdout.as_str()) {
                        Ok(value) => Ok(value),
                        Err(error) => Err(
                            ProviderError::request_failed(
                                "Failed to parse JSON: ",
                                error_text(&error).as_str(),
                            ),
                        ),
                    }
                }
            },
        }
    }

    /// The prompt that the script is run on: the JSON text of the request
    /// `payload`. A payload without one is a failed request, told in the
    /// words of the JSON writer.
    pub fn prompt(payload: &Value) -> (prompt: Result<String, ProviderError>)
        ensures
            match json_rendered(*payload) {
                Ok(text) => prompt matches Ok(rendered) && rendered@ == text,
                Err(error) => prompt matches Err(reported) && reported@
                    == ProviderErrorView::RequestFailed(json_error_text(error)),
            },
    {
        match render_json(payload) {
            Ok(text) => Ok(text),
            Err(error) => Err(ProviderError::RequestFailed(error_text(&error))),
        }
    }

    /// Ends a completion from what the format translator made of the
    /// script's response and from the model that the response names. A
    /// failure to translate the message comes first. A usage that cannot be
    /// derived counts as zero, since the script may report none; any other
    /// failure to extract it stands.
    pub fn completion<M>(
        message: Result<M, ProviderError>,
        usage: Result<Usage, ProviderError>,
        model: String,
    ) -> (completed: Result<(M, ProviderUsage), ProviderError>)
        ensures
            match (message, usage) {
                (Err(error), _) => completed == Err::<(M, ProviderUsage), ProviderError>(error),
                (Ok(translated), Ok(counted)) => completed matches Ok((delivered, served))
                    && delivered == translated && served@ == (ProviderUsageView {
                    model: model@,
                    usage: counted,
                }),
                (Ok(translated), Err(ProviderError::UsageError(_))) => completed matches Ok(
                    (delivered, served),
                ) && delivered == translated && served@ == (ProviderUsageView {
                    model: model@,
                    usage: Usage::zero(),
                }),
                (Ok(_), Err(error)) => completed == Err::<(M, ProviderUsage), ProviderError>(
                    error,
                ),
            },
    {
        let message = match message {
            Ok(message) => message,
            Err(error) => {
                return Err(error);
            },
        };
        let usage = match usage {
            Ok(usage) => usage,
            Err(ProviderError::UsageError(_)) => Usage::default(),
            Err(error) => {
                return Err(error);
            },
        };
        Ok((message, ProviderUsage::new(model, usage)))
    }
}

} // verus!
