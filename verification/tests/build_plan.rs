use wsq_codec::bindings::{extra_include_dirs, native_header_root};
use wsq_codec::compile::{
    check_sources_present, endianness_define, minimal_source_files, synthesized_global_symbol,
    warning_suppression_flags,
};
use wsq_codec::link::{
    artifact_name, check_link_plan_resolved, extra_search_paths, link_plan, LinkDep, LinkEntry,
    LinkKind,
};
use wsq_codec::orchestrator::{
    build_profile, build_target_name, disabled_feature_switches, full_output_subdirs,
};
use wsq_codec::target::{byte_order, Arch, ByteOrder, Os, TargetEnvironment};
use wsq_codec::{select_strategy, BuildError, BuildStrategy};

fn env(os: Os, arch: Arch) -> TargetEnvironment {
    TargetEnvironment { os, arch }
}

#[test]
fn full_on_mobile_is_a_configuration_error() {
    let r = select_strategy(env(Os::Ios, Arch::Aarch64), true);
    assert_eq!(r, Err(BuildError::FullStrategyUnavailable(Os::Ios)));
    let r = select_strategy(env(Os::Android, Arch::Arm), true);
    assert_eq!(r, Err(BuildError::FullStrategyUnavailable(Os::Android)));
    let r = select_strategy(env(Os::Other, Arch::Wasm32), true);
    assert_eq!(r, Err(BuildError::FullStrategyUnavailable(Os::Other)));
}

#[test]
fn desktop_honors_the_requested_strategy() {
    assert_eq!(select_strategy(env(Os::Linux, Arch::X86_64), true), Ok(BuildStrategy::Full));
    assert_eq!(select_strategy(env(Os::Macos, Arch::Aarch64), true), Ok(BuildStrategy::Full));
    assert_eq!(select_strategy(env(Os::Windows, Arch::X86_64), true), Ok(BuildStrategy::Full));
}

#[test]
fn unrequested_strategy_defaults_to_minimal_everywhere() {
    assert_eq!(select_strategy(env(Os::Linux, Arch::X86_64), false), Ok(BuildStrategy::Minimal));
    assert_eq!(select_strategy(env(Os::Ios, Arch::Aarch64), false), Ok(BuildStrategy::Minimal));
    assert_eq!(select_strategy(env(Os::Other, Arch::Other), false), Ok(BuildStrategy::Minimal));
}

#[test]
fn byte_order_is_little_unless_whitelisted_big() {
    assert_eq!(byte_order(Arch::X86_64), ByteOrder::Little);
    assert_eq!(byte_order(Arch::Aarch64), ByteOrder::Little);
    assert_eq!(byte_order(Arch::Wasm32), ByteOrder::Little);
    assert_eq!(byte_order(Arch::Other), ByteOrder::Little);
    assert_eq!(byte_order(Arch::Powerpc), ByteOrder::Big);
    assert_eq!(byte_order(Arch::S390x), ByteOrder::Big);
    assert_eq!(byte_order(Arch::Sparc64), ByteOrder::Big);
}

#[test]
fn endianness_define_follows_byte_order() {
    assert_eq!(endianness_define(Arch::X86_64), "__NBISLE__");
    assert_eq!(endianness_define(Arch::Powerpc), "__NBISBE__");
    assert_eq!(endianness_define(Arch::Other), "__NBISLE__");
}

#[test]
fn minimal_source_list_is_fixed_and_explicit() {
    let files = minimal_source_files();
    assert_eq!(files.len(), 40);
    assert_eq!(files[0], "wsq/cropcoeff.c");
    assert_eq!(files[9], "wsq/util.c");
    assert_eq!(files[10], "jpegl/decoder.c");
    assert!(files.contains(&"memalloc.c"));
    assert!(files.contains(&"nistcom.c"));
    let mut sorted = files.clone();
    sorted.sort();
    sorted.dedup();
    assert_eq!(sorted.len(), 40, "no file is listed twice");
}

#[test]
fn synthesized_symbol_satisfies_the_header_surface() {
    assert_eq!(synthesized_global_symbol(), "biomeval_nbis_debug");
}

#[test]
fn warning_flags_per_toolchain() {
    assert_eq!(warning_suppression_flags(Os::Windows), vec!["/W0", "/wd4996", "/wd4244", "/wd4267"]);
    assert_eq!(warning_suppression_flags(Os::Linux), vec!["-w"]);
    assert_eq!(warning_suppression_flags(Os::Ios), vec!["-w"]);
}

#[test]
fn missing_source_file_is_a_hard_failure() {
    let present = vec![true, true, true, false, true];
    assert_eq!(check_sources_present(&present), Err(BuildError::MissingSourceFile(3)));
    let all = vec![true; 40];
    assert_eq!(check_sources_present(&all), Ok(()));
    let none: Vec<bool> = Vec::new();
    assert_eq!(check_sources_present(&none), Ok(()));
}

#[test]
fn minimal_link_plan_is_dependency_free() {
    let plan = link_plan(env(Os::Linux, Arch::X86_64), BuildStrategy::Minimal);
    assert_eq!(
        plan,
        vec![LinkEntry { dep: LinkDep::NativeCodecArchive, kind: LinkKind::Static }]
    );
    let plan = link_plan(env(Os::Ios, Arch::Aarch64), BuildStrategy::Minimal);
    assert_eq!(
        plan,
        vec![
            LinkEntry { dep: LinkDep::NativeCodecArchive, kind: LinkKind::Static },
            LinkEntry { dep: LinkDep::CppRuntime, kind: LinkKind::Dynamic },
        ]
    );
}

#[test]
fn full_link_plan_per_platform() {
    let linux = link_plan(env(Os::Linux, Arch::X86_64), BuildStrategy::Full);
    assert_eq!(linux.len(), 11);
    assert_eq!(linux[0], LinkEntry { dep: LinkDep::AggregatedLibrary, kind: LinkKind::Static });
    assert_eq!(linux[10], LinkEntry { dep: LinkDep::CppRuntime, kind: LinkKind::Dynamic });

    let macos = link_plan(env(Os::Macos, Arch::Aarch64), BuildStrategy::Full);
    assert_eq!(macos.len(), 11);
    assert_eq!(macos[9], LinkEntry { dep: LinkDep::Crypto, kind: LinkKind::Framework });

    let windows = link_plan(env(Os::Windows, Arch::X86_64), BuildStrategy::Full);
    assert_eq!(windows.len(), 10);
    assert_eq!(windows[9], LinkEntry { dep: LinkDep::Crypto, kind: LinkKind::Dynamic });
}

#[test]
fn artifact_names_follow_platform_packaging() {
    assert_eq!(artifact_name(LinkDep::Png, Os::Linux), "png");
    assert_eq!(artifact_name(LinkDep::Png, Os::Macos), "png");
    assert_eq!(artifact_name(LinkDep::Png, Os::Windows), "libpng16");
    assert_eq!(artifact_name(LinkDep::Zlib, Os::Linux), "z");
    assert_eq!(artifact_name(LinkDep::Zlib, Os::Windows), "zlib");
    assert_eq!(artifact_name(LinkDep::BerkeleyDb, Os::Macos), "db_cxx");
    assert_eq!(artifact_name(LinkDep::BerkeleyDb, Os::Windows), "libdb48");
    assert_eq!(artifact_name(LinkDep::Crypto, Os::Linux), "crypto");
    assert_eq!(artifact_name(LinkDep::Crypto, Os::Macos), "Security");
    assert_eq!(artifact_name(LinkDep::Crypto, Os::Windows), "libcrypto");
    assert_eq!(artifact_name(LinkDep::CppRuntime, Os::Linux), "stdc++");
    assert_eq!(artifact_name(LinkDep::CppRuntime, Os::Macos), "c++");
    assert_eq!(artifact_name(LinkDep::NativeCodecArchive, Os::Android), "nbis_wsq");
    assert_eq!(artifact_name(LinkDep::AggregatedLibrary, Os::Linux), "biomeval");
}

#[test]
fn unresolved_link_entry_is_a_build_failure() {
    let resolved = vec![true, false];
    assert_eq!(check_link_plan_resolved(&resolved), Err(BuildError::UnresolvedLinkDependency(1)));
    assert_eq!(check_link_plan_resolved(&vec![true, true, true]), Ok(()));
}

#[test]
fn extra_search_paths_per_platform() {
    assert_eq!(extra_search_paths(Os::Macos), vec!["/opt/local/lib", "/opt/local/lib/db62"]);
    assert_eq!(
        extra_search_paths(Os::Windows),
        vec!["C:/Program Files/OpenSSL-Win64/lib/VC/x64/MD"]
    );
    assert_eq!(extra_search_paths(Os::Linux), Vec::<&str>::new());
}

#[test]
fn external_build_disables_unneeded_features() {
    assert_eq!(
        disabled_feature_switches(),
        vec!["WITH_HWLOC", "WITH_MPI", "WITH_FFMPEG", "WITH_PCSC"]
    );
    assert_eq!(build_profile(), "Release");
}

#[test]
fn external_build_target_per_generator() {
    assert_eq!(build_target_name(Os::Windows), "ALL_BUILD");
    assert_eq!(build_target_name(Os::Linux), "all");
    assert_eq!(build_target_name(Os::Macos), "all");
}

#[test]
fn every_plausible_output_location_is_registered() {
    assert_eq!(
        full_output_subdirs(),
        vec!["build/lib/Debug", "build/lib/Release", "build/lib", "lib"]
    );
}

#[test]
fn header_parse_include_dirs_per_platform() {
    assert_eq!(native_header_root(), "nbis/include");
    assert_eq!(
        extra_include_dirs(Os::Macos),
        vec!["/opt/local/include", "/usr/local/include", "/opt/homebrew/include"]
    );
    assert_eq!(extra_include_dirs(Os::Ios), vec!["/opt/local/include", "/opt/homebrew/include"]);
    assert_eq!(extra_include_dirs(Os::Linux), Vec::<&str>::new());
    assert_eq!(extra_include_dirs(Os::Windows), Vec::<&str>::new());
}
