//! Context bootstrap planning: which core-profile context to request from
//! the windowing layer, and when the request must fail. A request is
//! granted exactly for a version that has a core profile and that the
//! driver reaches; a granted plan carries the requested version itself,
//! never a silently downgraded one.

use vstd::prelude::*;

verus! {

/// Width in pixels of the bootstrap window.
pub const WINDOW_WIDTH: u32 = 800;

/// Height in pixels of the bootstrap window.
pub const WINDOW_HEIGHT: u32 = 600;

/// An OpenGL version as a major/minor pair.
#[derive(Clone, Copy, PartialEq, Eq, Structural, Debug)]
pub struct GlVersion {
    /// Major version number.
    pub major: u32,
    /// Minor version number.
    pub minor: u32,
}

/// The versions for which a core profile exists at all: 3.2 and 3.3,
/// and 4.0 through 4.6.
pub open spec fn core_profile_exists(v: GlVersion) -> bool {
    ||| (v.major == 3 && 2 <= v.minor <= 3)
    ||| (v.major == 4 && v.minor <= 6)
}

/// Version order: `a` is no newer than `b`.
pub open spec fn version_le(a: GlVersion, b: GlVersion) -> bool {
    a.major < b.major || (a.major == b.major && a.minor <= b.minor)
}

/// Whether the driver, whose newest supported version is `driver_max`,
/// can serve a core-profile context of version `v`.
pub open spec fn version_supported(v: GlVersion, driver_max: GlVersion) -> bool {
    core_profile_exists(v) && version_le(v, driver_max)
}

/// Everything the windowing layer needs to create the window and its
/// context: the granted version and the window's pixel dimensions.
pub struct ContextPlan {
    /// The core-profile version to request; exactly the version asked for.
    pub version: GlVersion,
    /// Window width in pixels.
    pub width: u32,
    /// Window height in pixels.
    pub height: u32,
}

/// Why context bootstrap was refused.
#[derive(Debug)]
pub enum BootstrapError {
    /// The requested version has no core profile or exceeds what the
    /// driver offers; no context is produced and nothing is downgraded.
    UnsupportedVersion {
        /// The version that was asked for.
        requested: GlVersion,
    },
}

/// Decide a run of context bootstrap: grant a plan exactly when the
/// requested version has a core profile and the driver reaches it. A
/// granted plan carries the requested version itself and the bootstrap
/// window size; an unsupported version is refused, the same way on every
/// run, rather than downgraded.
pub fn plan_context(requested: GlVersion, driver_max: GlVersion) -> (r: Result<
    ContextPlan,
    BootstrapError,
>)
    ensures
        r is Ok <==> version_supported(requested, driver_max),
        r matches Ok(p) ==> p.version == requested && p.width == WINDOW_WIDTH && p.height
            == WINDOW_HEIGHT,
        r matches Err(BootstrapError::UnsupportedVersion { requested: q }) ==> q == requested,
{
    let has_core_profile = (requested.major == 3 && 2 <= requested.minor && requested.minor <= 3)
        || (requested.major == 4 && requested.minor <= 6);
    let reachable = requested.major < driver_max.major || (requested.major == driver_max.major
        && requested.minor <= driver_max.minor);
    if has_core_profile && reachable {
        Ok(ContextPlan { version: requested, width: WINDOW_WIDTH, height: WINDOW_HEIGHT })
    } else {
        Err(BootstrapError::UnsupportedVersion { requested })
    }
}

/// Classify the driver's error query: any code other than zero flags an
/// error.
pub fn gl_error_flagged(code: u32) -> (r: bool)
    ensures
        r <==> code != 0,
{
    code != 0
}

} // verus!
