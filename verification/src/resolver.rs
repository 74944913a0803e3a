//! The binary-resolution state machine.
//!
//! [`LxExtension`] owns the in-process resolution cache and decides, one step
//! at a time, how to locate or provision the `lx-lsp` executable.  It never
//! touches the operating system itself: each step returns an [`Action`] for
//! the host to carry out (run a subprocess, check a path, or finish), along
//! with an optional [`Status`] to report to the status sink, and the host
//! feeds the outcome of the action back in as the next event.
//!
//! A resolution attempt runs: cache check, PATH lookup, fallback-directory
//! check, toolchain check, install, post-install PATH lookup and fallback
//! check.  Every terminal failure reports a human-readable `Status::Failed`
//! message before the machine returns to rest, and a failed attempt leaves
//! the cache empty, so a later attempt starts over.

use vstd::pervasive::unreached;
use vstd::prelude::*;
use vstd::string::*;

use crate::platform::{
    binary_name, binary_name_spec, fallback_path, fallback_path_spec, lookup_program,
    lookup_program_spec, Platform,
};
use crate::probe::{probe_path, probe_path_from_stdout};

verus! {

/// An installation status reported to the external status sink.
#[derive(Clone, Debug, PartialEq, Eq)]
pub enum Status {
    NoStatus,
    CheckingForUpdate,
    Downloading,
    Failed(String),
}

/// Why a resolution attempt failed.  The message carried by each variant is
/// the same human-readable text that is reported to the status sink.
#[derive(Clone, Debug, PartialEq, Eq)]
pub enum ResolveError {
    /// The Go toolchain was not found, so the server cannot be installed.
    ToolchainMissing(String),
    /// The install subprocess exited non-zero or could not be spawned.
    InstallFailed(String),
    /// The install apparently succeeded but the binary could not be found.
    NotLocatable(String),
}

/// The outcome of one subprocess invocation, as the host observed it.
#[derive(Clone, Debug, PartialEq, Eq)]
pub enum ExecOutcome {
    /// The subprocess ran to completion.  `status_code` is its exit code,
    /// absent when the process was terminated by a signal; `stdout` and
    /// `stderr` are its captured output streams.
    Completed { status_code: Option<i32>, stdout: String, stderr: String },
    /// The subprocess could not be spawned at all.
    SpawnFailed { message: String },
}

/// A subprocess for the host to run: a program name and its arguments.
#[derive(Clone, Debug, PartialEq, Eq)]
pub struct CommandRequest {
    pub program: String,
    pub args: Vec<String>,
}

/// The command line that launches the resolved server: the executable path,
/// no arguments, and a deliberately empty environment (the server does not
/// inherit the project's environment).
#[derive(Clone, Debug, PartialEq, Eq)]
pub struct LaunchCommand {
    pub command: String,
    pub args: Vec<String>,
    pub env: Vec<(String, String)>,
}

/// Where a resolution attempt currently stands.  `Idle` is both the rest
/// state and the state after any terminal step.
#[derive(Clone, Copy, Debug, PartialEq, Eq, Structural)]
pub enum Phase {
    Idle,
    LookupBeforeInstall,
    FallbackBeforeInstall,
    ToolchainCheck,
    Installing,
    LookupAfterInstall,
    FallbackAfterInstall,
}

/// What the host must do next.
#[derive(Debug, PartialEq, Eq)]
pub enum Action {
    /// Run the PATH-lookup subprocess and feed the outcome to
    /// [`LxExtension::on_path_lookup_result`].
    RunPathLookup(CommandRequest),
    /// Check whether the given path exists and feed the answer to
    /// [`LxExtension::on_fallback_result`].
    CheckFallback(String),
    /// Run the toolchain version check and feed the outcome to
    /// [`LxExtension::on_toolchain_result`].
    RunToolchainCheck(CommandRequest),
    /// Run the install subprocess and feed the outcome to
    /// [`LxExtension::on_install_result`].
    RunInstall(CommandRequest),
    /// The attempt is over, with the resolved path or an error.
    Finish(Result<String, ResolveError>),
}

/// One step of the machine: a status to report, if any, then an action to
/// carry out.
#[derive(Debug, PartialEq, Eq)]
pub struct Step {
    pub status: Option<Status>,
    pub action: Action,
}

/// The message reported when the Go toolchain is missing.
pub open spec fn toolchain_missing_message() -> Seq<char> {
    "Go toolchain not found. Please install Go to use LX extension.\n\nInstall Go from https://go.dev/doc/install\n\nThe extension will provide syntax highlighting only."@
}

/// The message reported when the binary cannot be found after an install.
pub open spec fn not_locatable_message() -> Seq<char> {
    "Failed to locate installed language server binary"@
}

/// The message reported when the install subprocess exits non-zero: a fixed
/// prefix followed by the subprocess's standard error, verbatim.
pub open spec fn install_failed_message(stderr: Seq<char>) -> Seq<char> {
    "Failed to install lx-lsp. Error: "@ + stderr
}

/// The message reported when the install subprocess cannot be spawned: a
/// fixed prefix followed by the spawn error, verbatim.
pub open spec fn install_spawn_failed_message(err: Seq<char>) -> Seq<char> {
    "Failed to run go install: "@ + err
}

/// The package coordinates the toolchain installs the server from.
pub open spec fn install_package() -> Seq<char> {
    "github.com/kamal-hamza/lx-lsp@latest"@
}

/// `r` asks for the platform's PATH-lookup command, applied to the
/// platform's binary name.
pub open spec fn is_lookup_request(r: CommandRequest, p: Platform) -> bool {
    &&& r.program@ == lookup_program_spec(p)
    &&& r.args@.len() == 1
    &&& r.args@[0]@ == binary_name_spec(p)
}

/// `r` asks for the toolchain's version check, `go version`.
pub open spec fn is_toolchain_request(r: CommandRequest) -> bool {
    &&& r.program@ == "go"@
    &&& r.args@.len() == 1
    &&& r.args@[0]@ == "version"@
}

/// `r` asks for the install, `go install` of the server's package.
pub open spec fn is_install_request(r: CommandRequest) -> bool {
    &&& r.program@ == "go"@
    &&& r.args@.len() == 2
    &&& r.args@[0]@ == "install"@
    &&& r.args@[1]@ == install_package()
}

/// The subprocess completed with exit code zero.
pub open spec fn exec_succeeded(o: ExecOutcome) -> bool {
    match o {
        ExecOutcome::Completed { status_code, stdout: _, stderr: _ } => status_code
            == Some(0i32),
        ExecOutcome::SpawnFailed { message: _ } => false,
    }
}

/// The path a PATH-lookup outcome resolves to: the subprocess must exit
/// with code zero and its trimmed standard output must have a non-empty
/// first line.
pub open spec fn lookup_found(o: ExecOutcome) -> Option<Seq<char>> {
    match o {
        ExecOutcome::Completed { status_code, stdout, stderr: _ } => {
            if status_code == Some(0i32) {
                probe_path(stdout@)
            } else {
                None
            }
        },
        ExecOutcome::SpawnFailed { message: _ } => None,
    }
}

impl ResolveError {
    /// The human-readable message the error carries.
    pub open spec fn message_view(self) -> Seq<char> {
        match self {
            ResolveError::ToolchainMissing(m) => m@,
            ResolveError::InstallFailed(m) => m@,
            ResolveError::NotLocatable(m) => m@,
        }
    }

    /// Returns the carried message.
    pub fn message(&self) -> (m: String)
        ensures
            m@ == self.message_view(),
    {
        match self {
            ResolveError::ToolchainMissing(m) => m.clone(),
            ResolveError::InstallFailed(m) => m.clone(),
            ResolveError::NotLocatable(m) => m.clone(),
        }
    }
}

/// Builds the PATH-lookup request for platform `p`.
fn lookup_request(p: Platform) -> (r: CommandRequest)
    ensures
        is_lookup_request(r, p),
{
    let mut args: Vec<String> = Vec::new();
    args.push(String::from_str(binary_name(p)));
    CommandRequest { program: String::from_str(lookup_program(p)), args }
}

/// Builds the toolchain version-check request, `go version`.
fn toolchain_request() -> (r: CommandRequest)
    ensures
        is_toolchain_request(r),
{
    let mut args: Vec<String> = Vec::new();
    args.push(String::from_str("version"));
    CommandRequest { program: String::from_str("go"), args }
}

/// Builds the install request, `go install` of the server's package.
fn install_request() -> (r: CommandRequest)
    ensures
        is_install_request(r),
{
    let mut args: Vec<String> = Vec::new();
    args.push(String::from_str("install"));
    args.push(String::from_str("github.com/kamal-hamza/lx-lsp@latest"));
    CommandRequest { program: String::from_str("go"), args }
}

/// The binary resolver: the resolution cache, the platform and home
/// directory it was constructed with, and where the current attempt stands.
pub struct LxExtension {
    pub platform: Platform,
    pub home: Option<String>,
    pub cached_binary_path: Option<String>,
    pub phase: Phase,
}

impl LxExtension {
    /// The machine only ever checks the fallback directory when a home
    /// directory is known.
    pub open spec fn wf(self) -> bool {
        (self.phase == Phase::FallbackBeforeInstall || self.phase == Phase::FallbackAfterInstall)
            ==> self.home is Some
    }

    /// A fresh resolver: empty cache, at rest, for the given platform and
    /// home directory (absent when the environment does not provide one).
    pub fn new(platform: Platform, home: Option<String>) -> (r: LxExtension)
        ensures
            r.platform == platform,
            r.home == home,
            r.cached_binary_path is None,
            r.phase == Phase::Idle,
            r.wf(),
    {
        LxExtension { platform, home, cached_binary_path: None, phase: Phase::Idle }
    }

    /// The platform-specific filename of the server executable.
    pub fn get_binary_name(&self) -> (r: &'static str)
        ensures
            r@ == binary_name_spec(self.platform),
    {
        binary_name(self.platform)
    }

    /// Begins a resolution attempt.  A cached path is returned at once,
    /// with no status report and no subprocess: the machine is left exactly
    /// as it was.  Otherwise the attempt starts with a `CheckingForUpdate`
    /// report and a PATH lookup.
    pub fn start_resolve(&mut self) -> (s: Step)
        requires
            old(self).wf(),
            old(self).phase == Phase::Idle,
        ensures
            final(self).wf(),
            final(self).platform == old(self).platform,
            final(self).home == old(self).home,
            old(self).cached_binary_path matches Some(p) ==> ({
                &&& *final(self) == *old(self)
                &&& s.status is None
                &&& s.action matches Action::Finish(res) && res matches Ok(q) && q@ == p@
            }),
            old(self).cached_binary_path is None ==> ({
                &&& final(self).cached_binary_path is None
                &&& final(self).phase == Phase::LookupBeforeInstall
                &&& s.status == Some(Status::CheckingForUpdate)
                &&& s.action matches Action::RunPathLookup(req) && is_lookup_request(
                    req,
                    old(self).platform,
                )
            }),
    {
        match &self.cached_binary_path {
            Some(p) => {
                let path = p.clone();
                Step { status: None, action: Action::Finish(Ok(path)) }
            },
            None => {
                self.phase = Phase::LookupBeforeInstall;
                Step {
                    status: Some(Status::CheckingForUpdate),
                    action: Action::RunPathLookup(lookup_request(self.platform)),
                }
            },
        }
    }

    /// Takes the outcome of a PATH lookup, before or after the install.  A
    /// resolved path wins outright: it is cached and returned, and the
    /// fallback directory is never consulted.  Otherwise the machine moves
    /// on: to the fallback check when a home directory is known; failing
    /// that, to the toolchain check before an install, or to a
    /// `NotLocatable` failure after one.
    pub fn on_path_lookup_result(&mut self, outcome: ExecOutcome) -> (s: Step)
        requires
            old(self).wf(),
            old(self).phase == Phase::LookupBeforeInstall || old(self).phase
                == Phase::LookupAfterInstall,
        ensures
            final(self).wf(),
            final(self).platform == old(self).platform,
            final(self).home == old(self).home,
            lookup_found(outcome) matches Some(path) ==> ({
                &&& s.status == Some(Status::NoStatus)
                &&& s.action matches Action::Finish(Ok(p)) && p@ == path
                &&& final(self).cached_binary_path matches Some(c) && c@ == path
                &&& final(self).phase == Phase::Idle
            }),
            old(self).home matches Some(h) ==> (lookup_found(outcome) is None ==> ({
                &&& s.status is None
                &&& s.action matches Action::CheckFallback(fp) && fp@ == fallback_path_spec(
                    h@,
                    old(self).platform,
                )
                &&& final(self).cached_binary_path == old(self).cached_binary_path
                &&& final(self).phase == (if old(self).phase == Phase::LookupBeforeInstall {
                    Phase::FallbackBeforeInstall
                } else {
                    Phase::FallbackAfterInstall
                })
            })),
            lookup_found(outcome) is None && old(self).home is None && old(self).phase
                == Phase::LookupBeforeInstall ==> ({
                &&& s.status is None
                &&& s.action matches Action::RunToolchainCheck(req) && is_toolchain_request(req)
                &&& final(self).cached_binary_path == old(self).cached_binary_path
                &&& final(self).phase == Phase::ToolchainCheck
            }),
            lookup_found(outcome) is None && old(self).home is None && old(self).phase
                == Phase::LookupAfterInstall ==> ({
                &&& s.status matches Some(Status::Failed(m)) && m@ == not_locatable_message()
                &&& s.action matches Action::Finish(Err(ResolveError::NotLocatable(e))) && e@
                    == not_locatable_message()
                &&& final(self).cached_binary_path == old(self).cached_binary_path
                &&& final(self).phase == Phase::Idle
            }),
    {
        let found: Option<String> = match outcome {
            ExecOutcome::Completed { status_code, stdout, stderr: _ } => {
                match status_code {
                    Some(code) => {
                        if code == 0 {
                            probe_path_from_stdout(stdout.as_str())
                        } else {
                            None
                        }
                    },
                    None => None,
                }
            },
            ExecOutcome::SpawnFailed { message: _ } => None,
        };
        match found {
            Some(path) => {
                self.cached_binary_path = Some(path.clone());
                self.phase = Phase::Idle;
                Step { status: Some(Status::NoStatus), action: Action::Finish(Ok(path)) }
            },
            None => {
                let post = self.phase == Phase::LookupAfterInstall;
                match &self.home {
                    Some(h) => {
                        let fp = fallback_path(h.as_str(), self.platform);
                        self.phase = if post {
                            Phase::FallbackAfterInstall
                        } else {
                            Phase::FallbackBeforeInstall
                        };
                        Step { status: None, action: Action::CheckFallback(fp) }
                    },
                    None => {
                        if post {
                            self.phase = Phase::Idle;
                            let m = String::from_str(
                                "Failed to locate installed language server binary",
                            );
                            Step {
                                status: Some(Status::Failed(m.clone())),
                                action: Action::Finish(Err(ResolveError::NotLocatable(m))),
                            }
                        } else {
                            self.phase = Phase::ToolchainCheck;
                            Step {
                                status: None,
                                action: Action::RunToolchainCheck(toolchain_request()),
                            }
                        }
                    },
                }
            },
        }
    }

    /// Takes the answer of the fallback-directory existence check, before
    /// or after the install.  An existing fallback path is cached and
    /// returned.  Otherwise the machine moves to the toolchain check before
    /// an install, or fails with `NotLocatable` after one.
    pub fn on_fallback_result(&mut self, exists: bool) -> (s: Step)
        requires
            old(self).wf(),
            old(self).phase == Phase::FallbackBeforeInstall || old(self).phase
                == Phase::FallbackAfterInstall,
        ensures
            final(self).wf(),
            final(self).platform == old(self).platform,
            final(self).home == old(self).home,
            old(self).home matches Some(h) ==> (exists ==> ({
                &&& s.status == Some(Status::NoStatus)
                &&& s.action matches Action::Finish(Ok(p)) && p@ == fallback_path_spec(
                    h@,
                    old(self).platform,
                )
                &&& final(self).cached_binary_path matches Some(c) && c@ == fallback_path_spec(
                    h@,
                    old(self).platform,
                )
                &&& final(self).phase == Phase::Idle
            })),
            !exists && old(self).phase == Phase::FallbackBeforeInstall ==> ({
                &&& s.status is None
                &&& s.action matches Action::RunToolchainCheck(req) && is_toolchain_request(req)
                &&& final(self).cached_binary_path == old(self).cached_binary_path
                &&& final(self).phase == Phase::ToolchainCheck
            }),
            !exists && old(self).phase == Phase::FallbackAfterInstall ==> ({
                &&& s.status matches Some(Status::Failed(m)) && m@ == not_locatable_message()
                &&& s.action matches Action::Finish(Err(ResolveError::NotLocatable(e))) && e@
                    == not_locatable_message()
                &&& final(self).cached_binary_path == old(self).cached_binary_path
                &&& final(self).phase == Phase::Idle
            }),
    {
        if exists {
            let path = match &self.home {
                Some(h) => fallback_path(h.as_str(), self.platform),
                None => unreached(),
            };
            self.cached_binary_path = Some(path.clone());
            self.phase = Phase::Idle;
            Step { status: Some(Status::NoStatus), action: Action::Finish(Ok(path)) }
        } else if self.phase == Phase::FallbackBeforeInstall {
            self.phase = Phase::ToolchainCheck;
            Step { status: None, action: Action::RunToolchainCheck(toolchain_request()) }
        } else {
            self.phase = Phase::Idle;
            let m = String::from_str("Failed to locate installed language server binary");
            Step {
                status: Some(Status::Failed(m.clone())),
                action: Action::Finish(Err(ResolveError::NotLocatable(m))),
            }
        }
    }

    /// Takes the outcome of the toolchain version check.  A toolchain that
    /// fails to spawn or exits non-zero ends the attempt at once with
    /// `ToolchainMissing`: no install is attempted.  Otherwise the machine
    /// reports `Downloading` and asks for the install.
    pub fn on_toolchain_result(&mut self, outcome: ExecOutcome) -> (s: Step)
        requires
            old(self).wf(),
            old(self).phase == Phase::ToolchainCheck,
        ensures
            final(self).wf(),
            final(self).platform == old(self).platform,
            final(self).home == old(self).home,
            final(self).cached_binary_path == old(self).cached_binary_path,
            exec_succeeded(outcome) ==> ({
                &&& s.status == Some(Status::Downloading)
                &&& s.action matches Action::RunInstall(req) && is_install_request(req)
                &&& final(self).phase == Phase::Installing
            }),
            !exec_succeeded(outcome) ==> ({
                &&& s.status matches Some(Status::Failed(m)) && m@ == toolchain_missing_message()
                &&& s.action matches Action::Finish(Err(ResolveError::ToolchainMissing(e))) && e@
                    == toolchain_missing_message()
                &&& final(self).phase == Phase::Idle
            }),
    {
        let ok = match outcome {
            ExecOutcome::Completed { status_code, stdout: _, stderr: _ } => {
                match status_code {
                    Some(code) => code == 0,
                    None => false,
                }
            },
            ExecOutcome::SpawnFailed { message: _ } => false,
        };
        if ok {
            self.phase = Phase::Installing;
            Step {
                status: Some(Status::Downloading),
                action: Action::RunInstall(install_request()),
            }
        } else {
            self.phase = Phase::Idle;
            let m = String::from_str(
                "Go toolchain not found. Please install Go to use LX extension.\n\nInstall Go from https://go.dev/doc/install\n\nThe extension will provide syntax highlighting only.",
            );
            Step {
                status: Some(Status::Failed(m.clone())),
                action: Action::Finish(Err(ResolveError::ToolchainMissing(m))),
            }
        }
    }

    /// Takes the outcome of the install subprocess.  A completed install
    /// leads to the post-install PATH lookup.  An install that exits
    /// non-zero fails with `InstallFailed`, whose message carries the
    /// install's standard error verbatim; one that cannot be spawned fails
    /// with `InstallFailed` carrying the spawn error.
    pub fn on_install_result(&mut self, outcome: ExecOutcome) -> (s: Step)
        requires
            old(self).wf(),
            old(self).phase == Phase::Installing,
        ensures
            final(self).wf(),
            final(self).platform == old(self).platform,
            final(self).home == old(self).home,
            final(self).cached_binary_path == old(self).cached_binary_path,
            exec_succeeded(outcome) ==> ({
                &&& s.status is None
                &&& s.action matches Action::RunPathLookup(req) && is_lookup_request(
                    req,
                    old(self).platform,
                )
                &&& final(self).phase == Phase::LookupAfterInstall
            }),
            outcome matches ExecOutcome::Completed { status_code, stdout: _, stderr } ==> (
            status_code != Some(0i32) ==> ({
                &&& s.status matches Some(Status::Failed(m)) && m@ == install_failed_message(
                    stderr@,
                )
                &&& s.action matches Action::Finish(Err(ResolveError::InstallFailed(e))) && e@
                    == install_failed_message(stderr@)
                &&& final(self).phase == Phase::Idle
            })),
            outcome matches ExecOutcome::SpawnFailed { message } ==> ({
                &&& s.status matches Some(Status::Failed(m)) && m@
                    == install_spawn_failed_message(message@)
                &&& s.action matches Action::Finish(Err(ResolveError::InstallFailed(e))) && e@
                    == install_spawn_failed_message(message@)
                &&& final(self).phase == Phase::Idle
            }),
    {
        match outcome {
            ExecOutcome::Completed { status_code, stdout: _, stderr } => {
                let ok = match status_code {
                    Some(code) => code == 0,
                    None => false,
                };
                if ok {
                    self.phase = Phase::LookupAfterInstall;
                    Step {
                        status: None,
                        action: Action::RunPathLookup(lookup_request(self.platform)),
                    }
                } else {
                    self.phase = Phase::Idle;
                    let m = String::from_str("Failed to install lx-lsp. Error: ").concat(
                        stderr.as_str(),
                    );
                    Step {
                        status: Some(Status::Failed(m.clone())),
                        action: Action::Finish(Err(ResolveError::InstallFailed(m))),
                    }
                }
            },
            ExecOutcome::SpawnFailed { message } => {
                self.phase = Phase::Idle;
                let m = String::from_str("Failed to run go install: ").concat(message.as_str());
                Step {
                    status: Some(Status::Failed(m.clone())),
                    action: Action::Finish(Err(ResolveError::InstallFailed(m))),
                }
            },
        }
    }

    /// The command line that launches the server, once a path has been
    /// resolved: the cached path, no arguments, and an empty environment.
    /// Nothing is returned while the cache is empty.
    pub fn language_server_command(&self) -> (r: Option<LaunchCommand>)
        ensures
            self.cached_binary_path matches Some(p) ==> ({
                &&& r matches Some(c)
                &&& c.command@ == p@
                &&& c.args@.len() == 0
                &&& c.env@.len() == 0
            }),
            self.cached_binary_path is None ==> r is None,
    {
        match &self.cached_binary_path {
            Some(p) => Some(
                LaunchCommand { command: p.clone(), args: Vec::new(), env: Vec::new() },
            ),
            None => None,
        }
    }
}

} // verus!
