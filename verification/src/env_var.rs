use crate::compositor::WindowType;
use crate::log_options::LoggingEnvVars;
use crate::overlay::{EnvPair, EnvironmentOverlay};
use vstd::prelude::*;

verus! {

/// The part of an instance's configuration that reaches the service through
/// its environment.
pub struct EnvVar {
    pub logging_env_vars: LoggingEnvVars,
    pub window_type: WindowType,
}

impl EnvVar {
    /// The pairs that this configuration contributes: those of the logging
    /// levels, then those of the display backend.
    pub open spec fn overlay(&self) -> Seq<EnvPair> {
        self.logging_env_vars.overlay() + self.window_type.overlay()
    }

    /// Adds the pairs of this configuration to `command`.
    pub fn set_vars(&self, command: EnvironmentOverlay) -> (extended: EnvironmentOverlay)
        ensures
            extended@ == command@ + self.overlay(),
    {
        let with_logging = self.logging_env_vars.set_vars(command);
        let extended = self.window_type.set_vars(with_logging);
        assert(extended@ =~= command@ + self.overlay());
        extended
    }
}

/// A configuration whose display backend is left to the service sets the
/// logging level and nothing else.
pub proof fn lemma_auto_backend_sets_only_logging(config: EnvVar)
    requires
        config.window_type == WindowType::Auto,
    ensures
        config.overlay() == config.logging_env_vars.overlay(),
        config.overlay().len() == 1,
{
    assert(config.overlay() =~= config.logging_env_vars.overlay());
}

impl Default for EnvVar {
    fn default() -> (config: Self)
        ensures
            config.logging_env_vars == LoggingEnvVars::initial(),
            config.window_type == WindowType::Auto,
    {
        EnvVar { logging_env_vars: LoggingEnvVars::default(), window_type: WindowType::default() }
    }
}

} // verus!
