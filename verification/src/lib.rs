//! Locates or provisions the `lx-lsp` language-server executable.
//!
//! The crate's core is a small, fully verified state machine
//! ([`resolver::LxExtension`]) that decides, step by step, whether to reuse a
//! cached path, probe the PATH and a well-known fallback directory, check for
//! the Go toolchain, or install the server and re-probe.  Every subprocess
//! invocation and filesystem query is performed by the embedding host, which
//! feeds each outcome back into the machine as an event and carries out the
//! action the machine returns.

pub mod laws;
pub mod platform;
pub mod probe;
pub mod resolver;
