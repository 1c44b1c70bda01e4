//! What is asked of the graphics API when the adapter and the logical device
//! are negotiated.

use vstd::prelude::*;

verus! {

/// The kind of runtime the program is built for.
#[derive(Clone, Copy, Debug, PartialEq, Eq, Structural)]
pub enum BuildTarget {
    /// An operating system with a native graphics API.
    Native,
    /// A browser, where only a reduced set of limits can be counted on.
    Web,
}

/// The set of limits a device is asked to guarantee.
#[derive(Clone, Copy, Debug, PartialEq, Eq, Structural)]
pub enum LimitProfile {
    /// The defaults of the graphics API.
    NativeDefault,
    /// The reduced limits that every browser backend can meet.
    WebSafe,
}

/// How much power use weighs in the choice of adapter.
#[derive(Clone, Copy, Debug, PartialEq, Eq, Structural)]
pub enum PowerPreference {
    /// Power use is not considered.
    Unspecified,
    LowPower,
    HighPerformance,
}

/// What the adapter must be like.
#[derive(Clone, Copy, Debug, PartialEq, Eq, Structural)]
pub struct AdapterRequest {
    pub power_preference: PowerPreference,
    /// Settle only for a fallback adapter, as a rule one in software.
    pub force_fallback: bool,
    /// The adapter must be able to present to the window's surface.
    pub compatible_with_surface: bool,
}

/// What the logical device must offer.
#[derive(Clone, Copy, Debug, PartialEq, Eq, Structural)]
pub struct DeviceRequest {
    /// The required features, one bit each. No bit set asks for none.
    pub required_features: u64,
    pub limits: LimitProfile,
}

impl BuildTarget {
    /// A browser gets the reduced limits, everything else the defaults.
    pub open spec fn limits(self) -> LimitProfile {
        match self {
            BuildTarget::Native => LimitProfile::NativeDefault,
            BuildTarget::Web => LimitProfile::WebSafe,
        }
    }
}

impl AdapterRequest {
    /// The one request this renderer makes: any adapter that can present to
    /// the surface, no preference as to power, no fallback forced.
    pub open spec fn standard() -> AdapterRequest {
        AdapterRequest {
            power_preference: PowerPreference::Unspecified,
            force_fallback: false,
            compatible_with_surface: true,
        }
    }

    pub fn new() -> (request: AdapterRequest)
        ensures
            request == AdapterRequest::standard(),
    {
        AdapterRequest {
            power_preference: PowerPreference::Unspecified,
            force_fallback: false,
            compatible_with_surface: true,
        }
    }
}

impl DeviceRequest {
    /// No feature is required; the limits go by the build target.
    pub open spec fn for_target(target: BuildTarget) -> DeviceRequest {
        DeviceRequest { required_features: 0, limits: target.limits() }
    }

    pub fn new(target: BuildTarget) -> (request: DeviceRequest)
        ensures
            request == DeviceRequest::for_target(target),
    {
        let limits = match target {
            BuildTarget::Native => LimitProfile::NativeDefault,
            BuildTarget::Web => LimitProfile::WebSafe,
        };
        DeviceRequest { required_features: 0, limits }
    }
}

} // verus!
