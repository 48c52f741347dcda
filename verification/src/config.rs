use vstd::prelude::*;
use vstd::string::StringExecFns;

verus! {

/// Settings of the application.
#[derive(Clone, Debug)]
pub struct AppConfig {
    pub webgpu: WebGpuConfig,
}

/// Settings of the adapter request.
#[derive(Clone, Debug)]
pub struct WebGpuConfig {
    /// One of `default`, `low-power` and `high-performance`.
    pub power_preference: String,
    /// Whether only a fallback adapter may be handed out.
    pub force_fallback: bool,
}

/// The hint that an adapter request carries about the kind of GPU wanted.
#[derive(Clone, Copy, Debug, PartialEq, Eq, Structural)]
pub enum PowerPreference {
    Default,
    LowPower,
    HighPerformance,
}

/// The hint that a setting's text names, if it names one.
pub open spec fn power_preference_of(text: Seq<char>) -> Option<PowerPreference> {
    if text == "default"@ {
        Some(PowerPreference::Default)
    } else if text == "low-power"@ {
        Some(PowerPreference::LowPower)
    } else if text == "high-performance"@ {
        Some(PowerPreference::HighPerformance)
    } else {
        None
    }
}

impl Default for AppConfig {
    /// The settings in force where nothing was configured: no preference for
    /// a kind of GPU, and no forced fallback.
    fn default() -> (r: Self)
        ensures
            r.webgpu.power_preference@ == "default"@,
            !r.webgpu.force_fallback,
    {
        AppConfig {
            webgpu: WebGpuConfig {
                power_preference: String::from_str("default"),
                force_fallback: false,
            },
        }
    }
}

impl WebGpuConfig {
    /// Reads the power preference: `None` where the text is none of the three
    /// values that the setting admits.
    pub fn power_preference_hint(&self) -> (r: Option<PowerPreference>)
        ensures
            r == power_preference_of(self.power_preference@),
    {
        if self.power_preference == String::from_str("default") {
            Some(PowerPreference::Default)
        } else if self.power_preference == String::from_str("low-power") {
            Some(PowerPreference::LowPower)
        } else if self.power_preference == String::from_str("high-performance") {
            Some(PowerPreference::HighPerformance)
        } else {
            None
        }
    }
}

} // verus!
