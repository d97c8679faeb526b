//! The protocol engine and its lifecycle.

use vstd::prelude::*;
use vstd::string::StringExecFns;
use crate::config::QIPConfig;
use crate::decimal::{decimal, decimal_string};
use crate::errors::QIPError;

verus! {

/// The protocol engine. It owns one configuration for its whole lifetime.
pub struct QIPEngine {
    config: QIPConfig,
}

impl View for QIPEngine {
    type V = QIPConfig;

    /// An engine is modelled by the configuration it owns.
    closed spec fn view(&self) -> QIPConfig {
        self.config
    }
}

/// The text of the record that announces initialization with
/// `validator_count` validators.
pub open spec fn initialization_text(validator_count: nat) -> Seq<char> {
    "Initializing QIP Protocol with "@ + decimal(validator_count) + " validators"@
}

impl QIPEngine {
    /// The engine that `new` builds from `config`.
    pub closed spec fn spec_new(config: QIPConfig) -> QIPEngine {
        QIPEngine { config }
    }

    /// What `initialize` reports on this engine: success, whatever the
    /// configuration holds.
    pub open spec fn initialize_outcome(&self) -> Result<(), QIPError> {
        Ok(())
    }

    /// The engine as it stands once `initialize` has returned. Initialization
    /// keeps no record of having run, so the engine has a single state and
    /// this is the engine itself.
    pub open spec fn after_initialize(&self) -> QIPEngine {
        *self
    }

    /// Builds an engine that owns `config`. Nothing is checked: every
    /// configuration is accepted.
    pub fn new(config: QIPConfig) -> (engine: Self)
        ensures
            engine == Self::spec_new(config),
            engine@ == config,
    {
        QIPEngine { config }
    }

    /// Brings the engine up. This always succeeds and leaves the engine as it
    /// was; the caller announces it with `initialization_message`.
    pub fn initialize(&self) -> (outcome: Result<(), QIPError>)
        ensures
            outcome == self.initialize_outcome(),
            outcome is Ok,
            self.after_initialize() == *self,
    {
        Ok(())
    }

    /// The text of the informational record that goes with `initialize`: it
    /// names the configured number of validators.
    pub fn initialization_message(&self) -> (message: String)
        ensures
            message@ == initialization_text(self@.validator_count as nat),
    {
        let count = decimal_string(self.config.validator_count);
        String::from_str("Initializing QIP Protocol with ").concat(count.as_str()).concat(
            " validators",
        )
    }

    /// Read-only access to the configuration that the engine owns.
    pub fn get_config(&self) -> (config: &QIPConfig)
        ensures
            *config == self@,
    {
        &self.config
    }
}

/// Initialization succeeds on a freshly built engine, whatever the
/// configuration holds, in range or not.
pub proof fn lemma_fresh_engine_initializes(config: QIPConfig)
    ensures
        QIPEngine::spec_new(config).initialize_outcome() is Ok,
{
}

/// The configuration read from an engine is the one it was built from, before
/// and after initialization.
pub proof fn lemma_config_survives_initialize(config: QIPConfig)
    ensures
        QIPEngine::spec_new(config)@ == config,
        QIPEngine::spec_new(config).after_initialize()@ == config,
{
}

/// Initialization is idempotent: run twice in succession it succeeds both
/// times, and the engine after the second run is the engine after the first,
/// which is the engine before either.
pub proof fn lemma_initialize_idempotent(engine: QIPEngine)
    ensures
        engine.initialize_outcome() is Ok,
        engine.after_initialize().initialize_outcome() is Ok,
        engine.after_initialize().initialize_outcome() == engine.initialize_outcome(),
        engine.after_initialize().after_initialize() == engine.after_initialize(),
        engine.after_initialize() == engine,
        engine.after_initialize()@ == engine@,
{
}

} // verus!
