use vstd::prelude::*;

verus! {

/// The `graphics` subcommand: query or set the graphics mode.
#[derive(Debug, Clone, PartialEq, Eq)]
pub enum GraphicsArgs {
    /// Like integrated, but the dGPU is available for compute.
    Compute,
    /// Set the graphics mode to Hybrid (PRIME).
    Hybrid,
    /// Set the graphics mode to integrated.
    Integrated,
    /// Set the graphics mode to NVIDIA.
    Nvidia,
    /// Determines if the system has switchable graphics.
    Switchable,
    /// Query or set (`auto`, `off` or `on`) the discrete graphics power state.
    Power { state: Option<String> },
}

/// The command line: one subcommand.
#[derive(Debug, Clone, PartialEq, Eq)]
pub enum Args {
    /// Run as the daemon; `quiet` and `verbose` set the log level.
    Daemon { quiet: bool, verbose: bool },
    /// Query or set (`battery`, `balanced`, `performance`) the power profile.
    Profile { profile: Option<String> },
    /// Query or set the graphics mode.
    Graphics { cmd: Option<GraphicsArgs> },
    /// Set battery charge thresholds, by profile or as start and end.
    ChargeThresholds { profile: Option<String>, list_profiles: bool, thresholds: Vec<String> },
}

impl GraphicsArgs {
    /// The vendor mode this subcommand switches to, if it is one that does.
    pub fn vendor(&self) -> (r: Option<&'static str>)
        ensures
            self is Compute ==> (r matches Some(v) && v@ == "compute"@),
            self is Hybrid ==> (r matches Some(v) && v@ == "hybrid"@),
            self is Integrated ==> (r matches Some(v) && v@ == "integrated"@),
            self is Nvidia ==> (r matches Some(v) && v@ == "nvidia"@),
            (self is Switchable || self is Power) ==> r is None,
    {
        match self {
            GraphicsArgs::Compute => Some("compute"),
            GraphicsArgs::Hybrid => Some("hybrid"),
            GraphicsArgs::Integrated => Some("integrated"),
            GraphicsArgs::Nvidia => Some("nvidia"),
            _ => None,
        }
    }
}

} // verus!
