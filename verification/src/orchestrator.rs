//! Configuration of the external build orchestrator used by the full
//! strategy: which optional native features are switched off, which build
//! target the external generator is asked for, and every plausible output
//! location the linker must be pointed at — output layout varies across
//! build-system generators, so all of them are registered rather than one
//! assumed.

use vstd::prelude::*;
use crate::compile::names_of;
use crate::target::Os;

verus! {

/// The optional native features the full build switches off: the wrapper
/// needs only the imaging/compression subset, not hardware topology,
/// multi-process, multimedia or smart-card support.
pub open spec fn disabled_feature_switches_spec() -> Seq<Seq<char>> {
    seq!["WITH_HWLOC"@, "WITH_MPI"@, "WITH_FFMPEG"@, "WITH_PCSC"@]
}

/// The feature switches handed to the external build, each set off.
pub fn disabled_feature_switches() -> (r: Vec<&'static str>)
    ensures
        names_of(r@) == disabled_feature_switches_spec(),
        r@.len() == 4,
{
    let mut v: Vec<&'static str> = Vec::new();
    v.push("WITH_HWLOC");
    v.push("WITH_MPI");
    v.push("WITH_FFMPEG");
    v.push("WITH_PCSC");
    proof {
        assert(names_of(v@) =~= disabled_feature_switches_spec());
    }
    v
}

/// The build profile the external build is pinned to, avoiding a runtime
/// library mismatch with the debug variant on Windows.
pub fn build_profile() -> (r: &'static str)
    ensures
        r@ == "Release"@,
{
    "Release"
}

/// The target name the external generator builds everything under.
pub open spec fn build_target_name_spec(os: Os) -> Seq<char> {
    if os == Os::Windows {
        "ALL_BUILD"@
    } else {
        "all"@
    }
}

/// The external generator's catch-all build target: the Visual Studio
/// generator names it differently from the Unix makefile generator.
pub fn build_target_name(os: Os) -> (r: &'static str)
    ensures
        r@ == build_target_name_spec(os),
{
    match os {
        Os::Windows => "ALL_BUILD",
        _ => "all",
    }
}

/// Every plausible library output location of the external build, relative
/// to its output root, in registration order: configuration-specific
/// subdirectories on some generators, flat layouts on others.
pub open spec fn full_output_subdirs_spec() -> Seq<Seq<char>> {
    seq!["build/lib/Debug"@, "build/lib/Release"@, "build/lib"@, "lib"@]
}

/// The output subdirectories registered with the linker under the full
/// strategy. All of them are registered; assuming one layout breaks on the
/// generators that use another.
pub fn full_output_subdirs() -> (r: Vec<&'static str>)
    ensures
        names_of(r@) == full_output_subdirs_spec(),
        r@.len() == 4,
{
    let mut v: Vec<&'static str> = Vec::new();
    v.push("build/lib/Debug");
    v.push("build/lib/Release");
    v.push("build/lib");
    v.push("lib");
    proof {
        assert(names_of(v@) =~= full_output_subdirs_spec());
    }
    v
}

/// Where the packaged-dependency tree keeps its import libraries, relative
/// to the external toolchain root consulted only under the full strategy.
pub fn packaged_dependency_lib_subdir() -> (r: &'static str)
    ensures
        r@ == "installed/x64-windows/lib"@,
{
    "installed/x64-windows/lib"
}

/// Where the packaged-dependency tree keeps its toolchain description,
/// relative to the external toolchain root.
pub fn packaged_dependency_toolchain_subdir() -> (r: &'static str)
    ensures
        r@ == "scripts/buildsystems/vcpkg.cmake"@,
{
    "scripts/buildsystems/vcpkg.cmake"
}

} // verus!
