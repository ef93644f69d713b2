//! Configuration of the interface binding generator: the include
//! directories, beyond the native library's own header root, under which
//! the native header surface is parsed into foreign-call declarations.
//! Declarations are regenerated from the headers on every build, never
//! reused stale.

use vstd::prelude::*;
use crate::compile::names_of;
use crate::target::Os;

verus! {

/// The include directory of the native library's public header surface,
/// relative to its source root. Every generation and every compilation
/// uses this same path, so declarations and object code cannot drift
/// apart.
pub fn native_header_root() -> (r: &'static str)
    ensures
        r@ == "nbis/include"@,
{
    "nbis/include"
}

/// The extra system include directories a platform needs for standard
/// headers when the native header surface is parsed.
pub open spec fn extra_include_dirs_spec(os: Os) -> Seq<Seq<char>> {
    if os == Os::Macos {
        seq!["/opt/local/include"@, "/usr/local/include"@, "/opt/homebrew/include"@]
    } else if os == Os::Ios {
        seq!["/opt/local/include"@, "/opt/homebrew/include"@]
    } else {
        seq![]
    }
}

/// The fixed extra include directories registered with the header parser:
/// the ports and brew trees on the Apple platforms, nothing fixed
/// elsewhere.
pub fn extra_include_dirs(os: Os) -> (r: Vec<&'static str>)
    ensures
        names_of(r@) == extra_include_dirs_spec(os),
{
    let mut v: Vec<&'static str> = Vec::new();
    match os {
        Os::Macos => {
            v.push("/opt/local/include");
            v.push("/usr/local/include");
            v.push("/opt/homebrew/include");
        },
        Os::Ios => {
            v.push("/opt/local/include");
            v.push("/opt/homebrew/include");
        },
        _ => {},
    }
    proof {
        assert(names_of(v@) =~= extra_include_dirs_spec(os));
    }
    v
}

/// Where the packaged-dependency tree keeps its headers, relative to the
/// external toolchain root, consulted on Windows under the full strategy.
pub fn packaged_dependency_include_subdir() -> (r: &'static str)
    ensures
        r@ == "installed/x64-windows/include"@,
{
    "installed/x64-windows/include"
}

} // verus!
