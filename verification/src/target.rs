//! The target environment every build-time decision is keyed on: operating
//! system, CPU architecture, and the endianness class derived from the
//! architecture. Derived once at build time and immutable thereafter.

use vstd::prelude::*;

verus! {

/// Operating systems the build distinguishes. Anything else is treated as
/// an embedded-class platform with the minimal dependency footprint.
#[derive(Clone, Copy, Debug, PartialEq, Eq, Structural)]
pub enum Os {
    Linux,
    Macos,
    Windows,
    Ios,
    Android,
    Other,
}

/// CPU architectures the build distinguishes. Anything else falls under
/// `Other` and is assumed little-endian.
#[derive(Clone, Copy, Debug, PartialEq, Eq, Structural)]
pub enum Arch {
    X86,
    X86_64,
    Aarch64,
    Arm,
    Wasm32,
    Wasm64,
    Powerpc,
    S390x,
    Sparc64,
    Other,
}

/// Byte order the native codec is compiled for. The codec selects its byte
/// order at compile time; a wrong guess silently corrupts output, so the
/// big-endian class is a narrow, explicit whitelist.
#[derive(Clone, Copy, Debug, PartialEq, Eq, Structural)]
pub enum ByteOrder {
    Little,
    Big,
}

/// A target platform: operating system and CPU architecture, fixed by the
/// build environment, not user-configurable per invocation.
#[derive(Clone, Copy, Debug, PartialEq, Eq, Structural)]
pub struct TargetEnvironment {
    pub os: Os,
    pub arch: Arch,
}

/// The architectures known to be big-endian. Everything outside this
/// whitelist — including every architecture the build does not recognize —
/// is assumed little-endian, the overwhelmingly common case.
pub open spec fn big_endian_whitelist(arch: Arch) -> bool {
    arch == Arch::Powerpc || arch == Arch::S390x || arch == Arch::Sparc64
}

/// The endianness class of an architecture.
pub open spec fn byte_order_spec(arch: Arch) -> ByteOrder {
    if big_endian_whitelist(arch) {
        ByteOrder::Big
    } else {
        ByteOrder::Little
    }
}

/// Derives the endianness class of an architecture: big-endian exactly for
/// the whitelisted architectures, little-endian for every other, known or
/// unknown.
pub fn byte_order(arch: Arch) -> (r: ByteOrder)
    ensures
        r == byte_order_spec(arch),
        big_endian_whitelist(arch) <==> r == ByteOrder::Big,
{
    match arch {
        Arch::Powerpc | Arch::S390x | Arch::Sparc64 => ByteOrder::Big,
        _ => ByteOrder::Little,
    }
}

/// The desktop platforms able to host the external library's full build:
/// they alone have its complete dependency set (imaging, database and
/// crypto system libraries) and an external build toolchain.
pub open spec fn supports_full_build(os: Os) -> bool {
    os == Os::Linux || os == Os::Macos || os == Os::Windows
}

/// Whether this operating system can host the full build strategy.
pub fn os_supports_full_build(os: Os) -> (r: bool)
    ensures
        r == supports_full_build(os),
{
    match os {
        Os::Linux | Os::Macos | Os::Windows => true,
        _ => false,
    }
}

} // verus!
