//! Properties of the resolver that relate several of its definitions.
//!
//! The per-call guarantees — cache idempotence, probe ordering, failing
//! before the install when the toolchain is missing — are stated directly
//! in the `ensures` of the [`crate::resolver::Resolver`] step methods.  The
//! proof functions here state the properties that live on the specification
//! level: how probe output is read, what the failure messages carry, and
//! how the platform names relate.

use vstd::prelude::*;

use crate::platform::{binary_name_spec, fallback_path_spec, lookup_program_spec, Platform};
use crate::probe::{is_space, lemma_trim_start_at, probe_path, trim_start, trimmed};
use crate::resolver::{install_failed_message, install_spawn_failed_message};

verus! {

/// A PATH lookup whose standard output is nothing but whitespace resolves
/// to no path at all: it is "not found", never an empty path.
pub proof fn lemma_whitespace_output_is_not_found(s: Seq<char>)
    requires
        forall|i: int| 0 <= i < s.len() ==> is_space(s[i]),
    ensures
        probe_path(s) is None,
{
    lemma_trim_start_at(s, s.len() as int);
    assert(trim_start(s) =~= Seq::<char>::empty());
    assert(trimmed(s) =~= Seq::<char>::empty());
}

/// The message of a failed install ends with the install subprocess's
/// standard error, verbatim.
pub proof fn lemma_install_failure_message_carries_stderr(stderr: Seq<char>)
    ensures
        ({
            let m = install_failed_message(stderr);
            &&& m.len() >= stderr.len()
            &&& m.subrange(m.len() - stderr.len(), m.len() as int) == stderr
        }),
{
    let m = install_failed_message(stderr);
    assert(m.subrange(m.len() - stderr.len(), m.len() as int) =~= stderr);
}

/// The message of an install that could not be spawned ends with the spawn
/// error, verbatim.
pub proof fn lemma_spawn_failure_message_carries_error(err: Seq<char>)
    ensures
        ({
            let m = install_spawn_failed_message(err);
            &&& m.len() >= err.len()
            &&& m.subrange(m.len() - err.len(), m.len() as int) == err
        }),
{
    let m = install_spawn_failed_message(err);
    assert(m.subrange(m.len() - err.len(), m.len() as int) =~= err);
}

/// On Windows the binary name is the ordinary name with the `.exe` suffix,
/// and the lookup command is `where` instead of `which`.
pub proof fn lemma_windows_naming()
    ensures
        binary_name_spec(Platform::Windows) == binary_name_spec(Platform::Other) + ".exe"@,
        lookup_program_spec(Platform::Windows) == "where"@,
        lookup_program_spec(Platform::Other) == "which"@,
{
    reveal_strlit("lx-lsp.exe");
    reveal_strlit("lx-lsp");
    reveal_strlit(".exe");
    assert(binary_name_spec(Platform::Windows) =~= binary_name_spec(Platform::Other) + ".exe"@);
}

/// The fallback path is the home directory, the fixed `go/bin`
/// subdirectory, and then exactly the platform binary name.
pub proof fn lemma_fallback_path_uses_binary_name(home: Seq<char>, p: Platform)
    ensures
        ({
            let f = fallback_path_spec(home, p);
            let b = binary_name_spec(p);
            &&& f.len() == home.len() + "/go/bin/"@.len() + b.len()
            &&& f.subrange(0, home.len() as int) == home
            &&& f.subrange(f.len() - b.len(), f.len() as int) == b
        }),
{
    let f = fallback_path_spec(home, p);
    let b = binary_name_spec(p);
    assert(f.subrange(0, home.len() as int) =~= home);
    assert(f.subrange(f.len() - b.len(), f.len() as int) =~= b);
}

} // verus!
