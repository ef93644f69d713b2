//! The native compilation driver for the minimal strategy: the fixed,
//! explicit list of native source files to compile (never a directory scan
//! — silently picking up new files would be a correctness and supply-chain
//! risk), the compile-time define and flags they need, the one global
//! symbol synthesized to satisfy the header surface, and the check that
//! every required file is present before anything is built.

use vstd::prelude::*;
use crate::strategy::BuildError;
use crate::target::{byte_order_spec, Arch, ByteOrder, Os};

verus! {

/// The compile-time define selecting the codec's byte order.
pub open spec fn endianness_define_spec(arch: Arch) -> Seq<char> {
    if byte_order_spec(arch) == ByteOrder::Big {
        "__NBISBE__"@
    } else {
        "__NBISLE__"@
    }
}

/// The byte-order define for an architecture: the big-endian define for
/// the whitelisted big-endian architectures, the little-endian define for
/// every other.
pub fn endianness_define(arch: Arch) -> (r: &'static str)
    ensures
        r@ == endianness_define_spec(arch),
{
    match crate::target::byte_order(arch) {
        ByteOrder::Big => "__NBISBE__",
        ByteOrder::Little => "__NBISLE__",
    }
}

/// The views of a list of string slices.
pub open spec fn names_of(v: Seq<&'static str>) -> Seq<Seq<char>> {
    v.map_values(|s: &'static str| s@)
}

/// The wavelet-transform / entropy-coding module of the native library:
/// the codec proper.
pub open spec fn wavelet_module_sources() -> Seq<Seq<char>> {
    seq![
        "wsq/cropcoeff.c"@,
        "wsq/decoder.c"@,
        "wsq/encoder.c"@,
        "wsq/globals.c"@,
        "wsq/huff.c"@,
        "wsq/ppi.c"@,
        "wsq/sd14util.c"@,
        "wsq/tableio.c"@,
        "wsq/tree.c"@,
        "wsq/util.c"@,
    ]
}

/// The lossless-compression module the codec borrows its Huffman coding
/// and image-descriptor helpers from.
pub open spec fn huffman_module_sources() -> Seq<Seq<char>> {
    seq![
        "jpegl/decoder.c"@,
        "jpegl/encoder.c"@,
        "jpegl/huff.c"@,
        "jpegl/huftable.c"@,
        "jpegl/imgdat.c"@,
        "jpegl/ppi.c"@,
        "jpegl/sd4util.c"@,
        "jpegl/tableio.c"@,
        "jpegl/util.c"@,
    ]
}

/// The direct utility dependencies of the codec module: feature-record
/// handling, error reporting, memory helpers, and byte-order conversion.
pub open spec fn utility_sources() -> Seq<Seq<char>> {
    seq![
        "allocfet.c"@,
        "delfet.c"@,
        "extrfet.c"@,
        "freefet.c"@,
        "lkupfet.c"@,
        "printfet.c"@,
        "readfet.c"@,
        "strfet.c"@,
        "updatfet.c"@,
        "writefet.c"@,
        "fatalerr.c"@,
        "syserr.c"@,
        "memalloc.c"@,
        "computil.c"@,
        "dataio.c"@,
        "intrlv.c"@,
        "invbyte.c"@,
        "invbytes.c"@,
        "bres.c"@,
        "nistcom.c"@,
        "filesize.c"@,
    ]
}

/// The complete fixed source list of the minimal build, in compilation
/// order: codec module, Huffman module, utilities.
pub open spec fn minimal_sources_spec() -> Seq<Seq<char>> {
    wavelet_module_sources() + huffman_module_sources() + utility_sources()
}

/// The fixed, explicit list of native source files the minimal build
/// compiles, relative to the native library's source root. The list is
/// data, not a directory scan: a file the codec does not need is never
/// picked up silently.
pub fn minimal_source_files() -> (r: Vec<&'static str>)
    ensures
        names_of(r@) == minimal_sources_spec(),
        r@.len() == 40,
{
    let mut v: Vec<&'static str> = Vec::new();
    v.push("wsq/cropcoeff.c");
    v.push("wsq/decoder.c");
    v.push("wsq/encoder.c");
    v.push("wsq/globals.c");
    v.push("wsq/huff.c");
    v.push("wsq/ppi.c");
    v.push("wsq/sd14util.c");
    v.push("wsq/tableio.c");
    v.push("wsq/tree.c");
    v.push("wsq/util.c");
    v.push("jpegl/decoder.c");
    v.push("jpegl/encoder.c");
    v.push("jpegl/huff.c");
    v.push("jpegl/huftable.c");
    v.push("jpegl/imgdat.c");
    v.push("jpegl/ppi.c");
    v.push("jpegl/sd4util.c");
    v.push("jpegl/tableio.c");
    v.push("jpegl/util.c");
    v.push("allocfet.c");
    v.push("delfet.c");
    v.push("extrfet.c");
    v.push("freefet.c");
    v.push("lkupfet.c");
    v.push("printfet.c");
    v.push("readfet.c");
    v.push("strfet.c");
    v.push("updatfet.c");
    v.push("writefet.c");
    v.push("fatalerr.c");
    v.push("syserr.c");
    v.push("memalloc.c");
    v.push("computil.c");
    v.push("dataio.c");
    v.push("intrlv.c");
    v.push("invbyte.c");
    v.push("invbytes.c");
    v.push("bres.c");
    v.push("nistcom.c");
    v.push("filesize.c");
    proof {
        assert(names_of(v@) =~= minimal_sources_spec());
    }
    v
}

/// The one global symbol the header surface declares but the selected
/// source subset omits: it is synthesized rather than pulling in unrelated
/// source files to satisfy the link.
pub fn synthesized_global_symbol() -> (r: &'static str)
    ensures
        r@ == "biomeval_nbis_debug"@,
{
    "biomeval_nbis_debug"
}

/// The definition compiled for the synthesized global symbol.
pub fn synthesized_global_definition() -> (r: &'static str)
    ensures
        r@ == "int biomeval_nbis_debug = 0;\n"@,
{
    "int biomeval_nbis_debug = 0;\n"
}

/// The warning-suppression flags for one platform's toolchain.
pub open spec fn warning_flags_spec(os: Os) -> Seq<Seq<char>> {
    if os == Os::Windows {
        seq!["/W0"@, "/wd4996"@, "/wd4244"@, "/wd4267"@]
    } else {
        seq!["-w"@]
    }
}

/// Flags that suppress warnings from the legacy native source wholesale —
/// its internal policy, not the wrapper's. The Windows toolchain takes its
/// own spellings; every other toolchain takes the single blanket flag.
pub fn warning_suppression_flags(os: Os) -> (r: Vec<&'static str>)
    ensures
        names_of(r@) == warning_flags_spec(os),
{
    let mut v: Vec<&'static str> = Vec::new();
    match os {
        Os::Windows => {
            v.push("/W0");
            v.push("/wd4996");
            v.push("/wd4244");
            v.push("/wd4267");
        },
        _ => {
            v.push("-w");
        },
    }
    proof {
        assert(names_of(v@) =~= warning_flags_spec(os));
    }
    v
}

/// Every required source file is present.
pub open spec fn all_present(present: Seq<bool>) -> bool {
    forall|i: int| 0 <= i < present.len() ==> present[i]
}

/// Checks the presence flags of the fixed source list, one flag per file,
/// before anything is compiled.
///
/// Succeeds exactly when every required file is present; otherwise reports
/// the first missing file by its position in the list — a hard build
/// failure, never a silent partial build.
pub fn check_sources_present(present: &Vec<bool>) -> (r: Result<(), BuildError>)
    ensures
        r == Ok::<(), BuildError>(()) <==> all_present(present@),
        !all_present(present@) ==> (r matches Err(e) && e matches BuildError::MissingSourceFile(k)
            && 0 <= k < present@.len() && !present@[k as int] && (forall|j: int|
            0 <= j < k ==> present@[j])),
{
    let mut i: usize = 0;
    while i < present.len()
        invariant
            0 <= i <= present@.len(),
            forall|j: int| 0 <= j < i ==> present@[j],
        decreases present@.len() - i,
    {
        if !present[i] {
            return Err(BuildError::MissingSourceFile(i));
        }
        i += 1;
    }
    Ok(())
}

} // verus!
