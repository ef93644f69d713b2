//! The link configuration table: a pure lookup from (target environment,
//! build strategy) to the ordered link plan, and the per-platform artifact
//! names of each logical dependency. The name mapping is the nontrivial
//! content here and is kept as data in one place — the same logical
//! dependency carries a different artifact name under each platform's
//! packaging convention.

use vstd::prelude::*;
use crate::strategy::{BuildError, BuildStrategy};
use crate::target::{supports_full_build, Os, TargetEnvironment};

verus! {

/// How an artifact is linked.
#[derive(Clone, Copy, Debug, PartialEq, Eq, Structural)]
pub enum LinkKind {
    Static,
    Dynamic,
    Framework,
}

/// The logical dependencies the build can link, independent of any
/// platform's artifact naming.
#[derive(Clone, Copy, Debug, PartialEq, Eq, Structural)]
pub enum LinkDep {
    /// The static archive the minimal strategy compiles itself.
    NativeCodecArchive,
    /// The aggregated library the full strategy's external build produces.
    AggregatedLibrary,
    /// The baseline imaging library.
    Jpeg,
    /// The wavelet imaging library.
    Jpeg2000,
    /// The portable raster-image library.
    Png,
    /// The tagged raster-image library.
    Tiff,
    /// The general compression library.
    Zlib,
    /// The embedded SQL database library.
    Sqlite,
    /// The key-value store library.
    BerkeleyDb,
    /// The high-ratio compression library the tagged-image library needs.
    Lzma,
    /// The cryptography provider: a library on most platforms, a system
    /// framework on the Apple desktop.
    Crypto,
    /// The C++ runtime the aggregated library is written against.
    CppRuntime,
}

/// One resolved entry of a link plan.
#[derive(Clone, Copy, Debug, PartialEq, Eq, Structural)]
pub struct LinkEntry {
    pub dep: LinkDep,
    pub kind: LinkKind,
}

/// The artifact name of a logical dependency under one platform's
/// packaging convention. Total as a table; a plan only ever consults the
/// entries it contains.
pub open spec fn artifact_name_spec(dep: LinkDep, os: Os) -> Seq<char> {
    match dep {
        LinkDep::NativeCodecArchive => "nbis_wsq"@,
        LinkDep::AggregatedLibrary => "biomeval"@,
        LinkDep::Jpeg => "jpeg"@,
        LinkDep::Jpeg2000 => "openjp2"@,
        LinkDep::Png => if os == Os::Windows {
            "libpng16"@
        } else {
            "png"@
        },
        LinkDep::Tiff => "tiff"@,
        LinkDep::Zlib => if os == Os::Windows {
            "zlib"@
        } else {
            "z"@
        },
        LinkDep::Sqlite => "sqlite3"@,
        LinkDep::BerkeleyDb => if os == Os::Windows {
            "libdb48"@
        } else {
            "db_cxx"@
        },
        LinkDep::Lzma => "lzma"@,
        LinkDep::Crypto => if os == Os::Macos {
            "Security"@
        } else if os == Os::Windows {
            "libcrypto"@
        } else {
            "crypto"@
        },
        LinkDep::CppRuntime => if os == Os::Linux {
            "stdc++"@
        } else {
            "c++"@
        },
    }
}

/// Resolves a logical dependency to its artifact name on a platform.
pub fn artifact_name(dep: LinkDep, os: Os) -> (r: &'static str)
    ensures
        r@ == artifact_name_spec(dep, os),
{
    match dep {
        LinkDep::NativeCodecArchive => "nbis_wsq",
        LinkDep::AggregatedLibrary => "biomeval",
        LinkDep::Jpeg => "jpeg",
        LinkDep::Jpeg2000 => "openjp2",
        LinkDep::Png => if os == Os::Windows {
            "libpng16"
        } else {
            "png"
        },
        LinkDep::Tiff => "tiff",
        LinkDep::Zlib => if os == Os::Windows {
            "zlib"
        } else {
            "z"
        },
        LinkDep::Sqlite => "sqlite3",
        LinkDep::BerkeleyDb => if os == Os::Windows {
            "libdb48"
        } else {
            "db_cxx"
        },
        LinkDep::Lzma => "lzma",
        LinkDep::Crypto => if os == Os::Macos {
            "Security"
        } else if os == Os::Windows {
            "libcrypto"
        } else {
            "crypto"
        },
        LinkDep::CppRuntime => if os == Os::Linux {
            "stdc++"
        } else {
            "c++"
        },
    }
}

/// The system libraries every full plan links besides the aggregated
/// library, in order.
pub open spec fn full_common_entries() -> Seq<LinkEntry> {
    seq![
        (LinkEntry { dep: LinkDep::AggregatedLibrary, kind: LinkKind::Static }),
        (LinkEntry { dep: LinkDep::Jpeg, kind: LinkKind::Dynamic }),
        (LinkEntry { dep: LinkDep::Jpeg2000, kind: LinkKind::Dynamic }),
        (LinkEntry { dep: LinkDep::Png, kind: LinkKind::Dynamic }),
        (LinkEntry { dep: LinkDep::Tiff, kind: LinkKind::Dynamic }),
        (LinkEntry { dep: LinkDep::Zlib, kind: LinkKind::Dynamic }),
        (LinkEntry { dep: LinkDep::Sqlite, kind: LinkKind::Dynamic }),
        (LinkEntry { dep: LinkDep::BerkeleyDb, kind: LinkKind::Dynamic }),
        (LinkEntry { dep: LinkDep::Lzma, kind: LinkKind::Dynamic }),
    ]
}

/// The platform-specific tail of a full plan: how the cryptography
/// provider and the C++ runtime are linked.
pub open spec fn full_platform_entries(os: Os) -> Seq<LinkEntry> {
    if os == Os::Linux {
        seq![
            (LinkEntry { dep: LinkDep::Crypto, kind: LinkKind::Dynamic }),
            (LinkEntry { dep: LinkDep::CppRuntime, kind: LinkKind::Dynamic }),
        ]
    } else if os == Os::Macos {
        seq![
            (LinkEntry { dep: LinkDep::Crypto, kind: LinkKind::Framework }),
            (LinkEntry { dep: LinkDep::CppRuntime, kind: LinkKind::Dynamic }),
        ]
    } else if os == Os::Windows {
        seq![(LinkEntry { dep: LinkDep::Crypto, kind: LinkKind::Dynamic })]
    } else {
        seq![]
    }
}

/// The link plan of a (platform, strategy) pair. The minimal plan links
/// the self-compiled archive, plus the C++ runtime on the mobile Apple
/// platform; the full plan links the aggregated library and its system
/// dependency set.
pub open spec fn link_plan_spec(os: Os, strategy: BuildStrategy) -> Seq<LinkEntry> {
    if strategy == BuildStrategy::Minimal {
        if os == Os::Ios {
            seq![
                (LinkEntry { dep: LinkDep::NativeCodecArchive, kind: LinkKind::Static }),
                (LinkEntry { dep: LinkDep::CppRuntime, kind: LinkKind::Dynamic }),
            ]
        } else {
            seq![(LinkEntry { dep: LinkDep::NativeCodecArchive, kind: LinkKind::Static })]
        }
    } else {
        full_common_entries() + full_platform_entries(os)
    }
}

/// Resolves the ordered link plan of a target and strategy.
///
/// Only a platform that can host the full build may ask for a full plan —
/// the strategy selector is the single source of truth and never yields
/// `Full` elsewhere.
pub fn link_plan(env: TargetEnvironment, strategy: BuildStrategy) -> (r: Vec<LinkEntry>)
    requires
        strategy == BuildStrategy::Full ==> supports_full_build(env.os),
    ensures
        r@ == link_plan_spec(env.os, strategy),
{
    let mut v: Vec<LinkEntry> = Vec::new();
    match strategy {
        BuildStrategy::Minimal => {
            v.push(LinkEntry { dep: LinkDep::NativeCodecArchive, kind: LinkKind::Static });
            if env.os == Os::Ios {
                v.push(LinkEntry { dep: LinkDep::CppRuntime, kind: LinkKind::Dynamic });
            }
        },
        BuildStrategy::Full => {
            v.push(LinkEntry { dep: LinkDep::AggregatedLibrary, kind: LinkKind::Static });
            v.push(LinkEntry { dep: LinkDep::Jpeg, kind: LinkKind::Dynamic });
            v.push(LinkEntry { dep: LinkDep::Jpeg2000, kind: LinkKind::Dynamic });
            v.push(LinkEntry { dep: LinkDep::Png, kind: LinkKind::Dynamic });
            v.push(LinkEntry { dep: LinkDep::Tiff, kind: LinkKind::Dynamic });
            v.push(LinkEntry { dep: LinkDep::Zlib, kind: LinkKind::Dynamic });
            v.push(LinkEntry { dep: LinkDep::Sqlite, kind: LinkKind::Dynamic });
            v.push(LinkEntry { dep: LinkDep::BerkeleyDb, kind: LinkKind::Dynamic });
            v.push(LinkEntry { dep: LinkDep::Lzma, kind: LinkKind::Dynamic });
            match env.os {
                Os::Linux => {
                    v.push(LinkEntry { dep: LinkDep::Crypto, kind: LinkKind::Dynamic });
                    v.push(LinkEntry { dep: LinkDep::CppRuntime, kind: LinkKind::Dynamic });
                },
                Os::Macos => {
                    v.push(LinkEntry { dep: LinkDep::Crypto, kind: LinkKind::Framework });
                    v.push(LinkEntry { dep: LinkDep::CppRuntime, kind: LinkKind::Dynamic });
                },
                Os::Windows => {
                    v.push(LinkEntry { dep: LinkDep::Crypto, kind: LinkKind::Dynamic });
                },
                _ => {},
            }
        },
    }
    proof {
        assert(v@ =~= link_plan_spec(env.os, strategy));
    }
    v
}

/// Extra fixed library search paths a platform needs beyond the build's
/// own output directories.
pub open spec fn extra_search_paths_spec(os: Os) -> Seq<Seq<char>> {
    if os == Os::Macos {
        seq!["/opt/local/lib"@, "/opt/local/lib/db62"@]
    } else if os == Os::Windows {
        seq!["C:/Program Files/OpenSSL-Win64/lib/VC/x64/MD"@]
    } else {
        seq![]
    }
}

/// The fixed extra library search paths of a platform: the ports tree on
/// the Apple desktop, the system cryptography install on Windows, nothing
/// elsewhere.
pub fn extra_search_paths(os: Os) -> (r: Vec<&'static str>)
    ensures
        crate::compile::names_of(r@) == extra_search_paths_spec(os),
{
    let mut v: Vec<&'static str> = Vec::new();
    match os {
        Os::Macos => {
            v.push("/opt/local/lib");
            v.push("/opt/local/lib/db62");
        },
        Os::Windows => {
            v.push("C:/Program Files/OpenSSL-Win64/lib/VC/x64/MD");
        },
        _ => {},
    }
    proof {
        assert(crate::compile::names_of(v@) =~= extra_search_paths_spec(os));
    }
    v
}

/// Every entry of a link plan resolved to an artifact.
pub open spec fn all_resolved(resolved: Seq<bool>) -> bool {
    forall|i: int| 0 <= i < resolved.len() ==> resolved[i]
}

/// Checks the resolution flags of a link plan, one flag per entry, before
/// the build is considered successful.
///
/// Succeeds exactly when every entry resolved; otherwise reports the first
/// unresolved entry by its position in the plan — an unresolved entry is a
/// build-time failure, never a run-time one.
pub fn check_link_plan_resolved(resolved: &Vec<bool>) -> (r: Result<(), BuildError>)
    ensures
        r == Ok::<(), BuildError>(()) <==> all_resolved(resolved@),
        !all_resolved(resolved@) ==> (r matches Err(e) && e
            matches BuildError::UnresolvedLinkDependency(k) && 0 <= k < resolved@.len()
            && !resolved@[k as int] && (forall|j: int| 0 <= j < k ==> resolved@[j])),
{
    let mut i: usize = 0;
    while i < resolved.len()
        invariant
            0 <= i <= resolved@.len(),
            forall|j: int| 0 <= j < i ==> resolved@[j],
        decreases resolved@.len() - i,
    {
        if !resolved[i] {
            return Err(BuildError::UnresolvedLinkDependency(i));
        }
        i += 1;
    }
    Ok(())
}

/// The minimal strategy is dependency-free: its link plan names only the
/// self-compiled codec archive and, on the mobile Apple platform, the C++
/// runtime — never a system imaging, database or cryptography library.
pub proof fn lemma_minimal_plan_dependency_free(os: Os)
    ensures
        forall|i: int|
            0 <= i < link_plan_spec(os, BuildStrategy::Minimal).len() ==> (link_plan_spec(
                os,
                BuildStrategy::Minimal,
            )[i].dep == LinkDep::NativeCodecArchive || link_plan_spec(
                os,
                BuildStrategy::Minimal,
            )[i].dep == LinkDep::CppRuntime),
{
}

/// Every full plan links the aggregated library first, statically: the
/// external build's single product anchors the plan on every desktop
/// platform.
pub proof fn lemma_full_plan_anchored(os: Os)
    ensures
        link_plan_spec(os, BuildStrategy::Full).len() > 0,
        link_plan_spec(os, BuildStrategy::Full)[0] == (LinkEntry {
            dep: LinkDep::AggregatedLibrary,
            kind: LinkKind::Static,
        }),
{
}

} // verus!
