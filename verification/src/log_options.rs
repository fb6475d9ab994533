use crate::overlay::{EnvPair, EnvironmentOverlay};
use vstd::prelude::*;
use vstd::string::*;

verus! {

/// Verbosity of one subsystem of the service.
#[derive(Debug, PartialEq, Eq, Copy, Clone, Structural)]
pub enum LoggingLevel {
    Trace,
    Debug,
    Info,
    Warn,
    Error,
}

impl LoggingLevel {
    /// The lower-case name under which the service knows this level.
    pub open spec fn name(self) -> Seq<char> {
        match self {
            LoggingLevel::Trace => "trace"@,
            LoggingLevel::Debug => "debug"@,
            LoggingLevel::Info => "info"@,
            LoggingLevel::Warn => "warn"@,
            LoggingLevel::Error => "error"@,
        }
    }

    /// The level's name as an owned string.
    pub fn to_string(&self) -> (text: String)
        ensures
            text@ == self.name(),
    {
        match self {
            LoggingLevel::Trace => String::from_str("trace"),
            LoggingLevel::Debug => String::from_str("debug"),
            LoggingLevel::Info => String::from_str("info"),
            LoggingLevel::Warn => String::from_str("warn"),
            LoggingLevel::Error => String::from_str("error"),
        }
    }
}

/// The verbosity chosen for each subsystem of the service.
#[derive(Debug, Clone, Copy)]
pub struct LoggingEnvVars {
    pub compositor_log: LoggingLevel,
    pub egl_swap_chain_log: LoggingLevel,
    pub d3d_compositor_log: LoggingLevel,
    pub ht_log: LoggingLevel,
    pub calibration_log: LoggingLevel,
    pub global_log: LoggingLevel,
    pub aeg_log: LoggingLevel,
    pub egl_log: LoggingLevel,
    pub mercury_log: LoggingLevel,
    pub slam_log: LoggingLevel,
    pub simple_imu_log: LoggingLevel,
    pub psvr_tracking_log: LoggingLevel,
    pub d3d11_log: LoggingLevel,
    pub u_pacing_app_log: LoggingLevel,
    pub u_pacing_compositor_log: LoggingLevel,
    pub json_log: LoggingLevel,
    pub ahardwarebuffer_log: LoggingLevel,
    pub lh_log: LoggingLevel,
    pub svr_log: LoggingLevel,
    pub ns_log: LoggingLevel,
    pub qwerty_log: LoggingLevel,
    pub arduino_log: LoggingLevel,
    pub hydra_log: LoggingLevel,
    pub survive_log: LoggingLevel,
    pub vive_log: LoggingLevel,
}

impl LoggingEnvVars {
    /// The levels that the panel starts with.
    pub open spec fn initial() -> LoggingEnvVars {
        LoggingEnvVars {
            compositor_log: LoggingLevel::Debug,
            egl_swap_chain_log: LoggingLevel::Warn,
            d3d_compositor_log: LoggingLevel::Debug,
            ht_log: LoggingLevel::Warn,
            calibration_log: LoggingLevel::Debug,
            global_log: LoggingLevel::Warn,
            aeg_log: LoggingLevel::Warn,
            egl_log: LoggingLevel::Info,
            mercury_log: LoggingLevel::Warn,
            slam_log: LoggingLevel::Debug,
            simple_imu_log: LoggingLevel::Warn,
            psvr_tracking_log: LoggingLevel::Warn,
            d3d11_log: LoggingLevel::Warn,
            u_pacing_app_log: LoggingLevel::Warn,
            u_pacing_compositor_log: LoggingLevel::Warn,
            json_log: LoggingLevel::Warn,
            ahardwarebuffer_log: LoggingLevel::Warn,
            lh_log: LoggingLevel::Warn,
            svr_log: LoggingLevel::Warn,
            ns_log: LoggingLevel::Warn,
            qwerty_log: LoggingLevel::Info,
            arduino_log: LoggingLevel::Warn,
            hydra_log: LoggingLevel::Warn,
            survive_log: LoggingLevel::Warn,
            vive_log: LoggingLevel::Warn,
        }
    }

    /// The pairs that these levels contribute. Only the compositor's level is
    /// handed to the service; the other levels are kept and set nothing.
    pub open spec fn overlay(&self) -> Seq<EnvPair> {
        seq![("XRT_COMPOSITOR_LOG"@, self.compositor_log.name())]
    }

    /// Adds the pairs of these levels to `command`.
    pub fn set_vars(&self, command: EnvironmentOverlay) -> (extended: EnvironmentOverlay)
        ensures
            extended@ == command@ + self.overlay(),
    {
        let level = self.compositor_log.to_string();
        let extended = command.env("XRT_COMPOSITOR_LOG", level.as_str());
        assert(extended@ =~= command@ + self.overlay());
        extended
    }
}

impl Default for LoggingEnvVars {
    fn default() -> (levels: Self)
        ensures
            levels == LoggingEnvVars::initial(),
    {
        LoggingEnvVars {
            compositor_log: LoggingLevel::Debug,
            egl_swap_chain_log: LoggingLevel::Warn,
            d3d_compositor_log: LoggingLevel::Debug,
            ht_log: LoggingLevel::Warn,
            calibration_log: LoggingLevel::Debug,
            global_log: LoggingLevel::Warn,
            aeg_log: LoggingLevel::Warn,
            egl_log: LoggingLevel::Info,
            mercury_log: LoggingLevel::Warn,
            slam_log: LoggingLevel::Debug,
            simple_imu_log: LoggingLevel::Warn,
            psvr_tracking_log: LoggingLevel::Warn,
            d3d11_log: LoggingLevel::Warn,
            u_pacing_app_log: LoggingLevel::Warn,
            u_pacing_compositor_log: LoggingLevel::Warn,
            json_log: LoggingLevel::Warn,
            ahardwarebuffer_log: LoggingLevel::Warn,
            lh_log: LoggingLevel::Warn,
            svr_log: LoggingLevel::Warn,
            ns_log: LoggingLevel::Warn,
            qwerty_log: LoggingLevel::Info,
            arduino_log: LoggingLevel::Warn,
            hydra_log: LoggingLevel::Warn,
            survive_log: LoggingLevel::Warn,
            vive_log: LoggingLevel::Warn,
        }
    }
}

} // verus!
