//! Build-strategy selection: the single source of truth, consulted once at
//! build time, that every other build-time component takes its strategy
//! from. No component re-derives the decision independently.

use vstd::prelude::*;
use crate::target::{supports_full_build, Os, TargetEnvironment};

verus! {

/// The two mutually exclusive native-build configurations.
#[derive(Clone, Copy, Debug, PartialEq, Eq, Structural)]
pub enum BuildStrategy {
    /// Compile only the codec-relevant native source subset; dependency-free
    /// and available on every platform. The default.
    Minimal,
    /// Drive the external library's own build system to produce the
    /// complete aggregated native library; desktop platforms only.
    Full,
}

/// The build-time failure taxonomy. All fatal; none recovered
/// automatically; each carries the context needed to diagnose it.
#[derive(Clone, Copy, Debug, PartialEq, Eq, Structural)]
pub enum BuildError {
    /// The full strategy was requested on a platform that cannot host it —
    /// a configuration error, reported rather than silently downgraded.
    FullStrategyUnavailable(Os),
    /// A required native source file is absent; the carried index names its
    /// position in the fixed source list. There is no partial build.
    MissingSourceFile(usize),
    /// The external build toolchain needed by the full strategy is absent.
    ToolchainUnavailable,
    /// A link-plan entry did not resolve to an artifact; the carried index
    /// names its position in the plan.
    UnresolvedLinkDependency(usize),
    /// The native header surface could not be parsed into call
    /// declarations.
    HeaderParseFailure,
}

/// The strategy chosen for a target and a capability flag: desktop
/// platforms honor the flag, defaulting to minimal; platforms without the
/// full dependency set are forced to minimal, and requesting full there is
/// a configuration error.
pub open spec fn strategy_of(env: TargetEnvironment, full_requested: bool) -> Result<
    BuildStrategy,
    BuildError,
> {
    if full_requested {
        if supports_full_build(env.os) {
            Ok(BuildStrategy::Full)
        } else {
            Err(BuildError::FullStrategyUnavailable(env.os))
        }
    } else {
        Ok(BuildStrategy::Minimal)
    }
}

/// Chooses the build strategy for a target environment.
///
/// Exactly one strategy comes out of a successful selection: full when it
/// is requested and the platform can host it, minimal otherwise; requesting
/// full on a platform that cannot host it is a configuration error naming
/// that platform, never a silent downgrade.
pub fn select_strategy(env: TargetEnvironment, full_requested: bool) -> (r: Result<
    BuildStrategy,
    BuildError,
>)
    ensures
        r == strategy_of(env, full_requested),
        !full_requested ==> r == Ok::<BuildStrategy, BuildError>(BuildStrategy::Minimal),
        full_requested && supports_full_build(env.os) ==> r == Ok::<
            BuildStrategy,
            BuildError,
        >(BuildStrategy::Full),
        full_requested && !supports_full_build(env.os) ==> r == Err::<
            BuildStrategy,
            BuildError,
        >(BuildError::FullStrategyUnavailable(env.os)),
{
    if full_requested {
        if crate::target::os_supports_full_build(env.os) {
            Ok(BuildStrategy::Full)
        } else {
            Err(BuildError::FullStrategyUnavailable(env.os))
        }
    } else {
        Ok(BuildStrategy::Minimal)
    }
}

/// Strategy selection never falls back silently: on a platform that cannot
/// host the full build, requesting it yields a configuration error naming
/// the platform — in particular, the selection is not `Minimal`, and not
/// any other success.
pub proof fn lemma_no_silent_fallback(env: TargetEnvironment)
    requires
        !supports_full_build(env.os),
    ensures
        strategy_of(env, true) == Err::<BuildStrategy, BuildError>(
            BuildError::FullStrategyUnavailable(env.os),
        ),
        !(strategy_of(env, true) matches Ok(_)),
{
}

/// The full strategy is selected only where the platform can host it: every
/// successful selection of `Full` happened on a full-capable platform, so
/// downstream components may assume it.
pub proof fn lemma_full_only_where_supported(env: TargetEnvironment, full_requested: bool)
    requires
        strategy_of(env, full_requested) == Ok::<BuildStrategy, BuildError>(BuildStrategy::Full),
    ensures
        supports_full_build(env.os),
        full_requested,
{
}

} // verus!
