//! Platform-dependent naming: the binary filename, the PATH-lookup command,
//! and the well-known fallback installation directory.

use vstd::prelude::*;
use vstd::string::*;

verus! {

/// The target operating-system family.  Only the Windows / non-Windows
/// distinction matters here: it selects the binary suffix and the
/// PATH-lookup command.
#[derive(Clone, Copy, PartialEq, Eq, Structural, Debug)]
pub enum Platform {
    Windows,
    Other,
}

/// The platform-specific filename of the companion executable:
/// `lx-lsp.exe` on Windows, `lx-lsp` elsewhere.
pub open spec fn binary_name_spec(p: Platform) -> Seq<char> {
    match p {
        Platform::Windows => "lx-lsp.exe"@,
        Platform::Other => "lx-lsp"@,
    }
}

/// The platform-specific PATH-lookup command: `where` on Windows,
/// `which` elsewhere.
pub open spec fn lookup_program_spec(p: Platform) -> Seq<char> {
    match p {
        Platform::Windows => "where"@,
        Platform::Other => "which"@,
    }
}

/// The well-known fallback location: the home directory, the fixed
/// `go/bin` subdirectory, and the platform binary name.
pub open spec fn fallback_path_spec(home: Seq<char>, p: Platform) -> Seq<char> {
    home + "/go/bin/"@ + binary_name_spec(p)
}

/// The platform binary filename as a string slice.
pub fn binary_name(p: Platform) -> (r: &'static str)
    ensures
        r@ == binary_name_spec(p),
{
    match p {
        Platform::Windows => "lx-lsp.exe",
        Platform::Other => "lx-lsp",
    }
}

/// The platform PATH-lookup command as a string slice.
pub fn lookup_program(p: Platform) -> (r: &'static str)
    ensures
        r@ == lookup_program_spec(p),
{
    match p {
        Platform::Windows => "where",
        Platform::Other => "which",
    }
}

/// Builds the fallback path `<home>/go/bin/<binary name>`.
pub fn fallback_path(home: &str, p: Platform) -> (r: String)
    ensures
        r@ == fallback_path_spec(home@, p),
{
    String::from_str(home).concat("/go/bin/").concat(binary_name(p))
}

} // verus!
