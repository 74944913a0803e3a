use lx_resolver::platform::Platform;
use lx_resolver::resolver::{
    Action, CommandRequest, ExecOutcome, ResolveError, LxExtension, Status, Step,
};

fn completed(code: i32, stdout: &str, stderr: &str) -> ExecOutcome {
    ExecOutcome::Completed {
        status_code: Some(code),
        stdout: stdout.to_string(),
        stderr: stderr.to_string(),
    }
}

fn expect_lookup(s: &Step) -> &CommandRequest {
    match &s.action {
        Action::RunPathLookup(req) => req,
        other => panic!("expected a PATH lookup, got {:?}", other),
    }
}

fn expect_finish_ok(s: Step) -> String {
    match s.action {
        Action::Finish(Ok(p)) => p,
        other => panic!("expected a resolved path, got {:?}", other),
    }
}

fn expect_finish_err(s: Step) -> ResolveError {
    match s.action {
        Action::Finish(Err(e)) => e,
        other => panic!("expected a failure, got {:?}", other),
    }
}

#[test]
fn path_lookup_hit_resolves_and_ends_quiet() {
    let mut r = LxExtension::new(Platform::Other, Some("/home/u".to_string()));
    let s1 = r.start_resolve();
    assert_eq!(s1.status, Some(Status::CheckingForUpdate));
    let req = expect_lookup(&s1);
    assert_eq!(req.program, "which");
    assert_eq!(req.args, vec!["lx-lsp".to_string()]);

    let s2 = r.on_path_lookup_result(completed(0, "/usr/local/bin/lx-lsp\n", ""));
    assert_eq!(s2.status, Some(Status::NoStatus));
    assert_eq!(expect_finish_ok(s2), "/usr/local/bin/lx-lsp");
}

#[test]
fn cached_path_is_returned_without_any_action() {
    let mut r = LxExtension::new(Platform::Other, Some("/home/u".to_string()));
    let s1 = r.start_resolve();
    assert!(matches!(s1.action, Action::RunPathLookup(_)));
    let _ = r.on_path_lookup_result(completed(0, "/usr/local/bin/lx-lsp\n", ""));

    // every later attempt answers from the cache: no status, no subprocess
    for _ in 0..3 {
        let s = r.start_resolve();
        assert_eq!(s.status, None);
        assert_eq!(expect_finish_ok(s), "/usr/local/bin/lx-lsp");
    }
}

#[test]
fn path_match_wins_over_fallback() {
    // the machine resolves on the PATH answer alone: the fallback directory
    // (which here would name a different path) is never even asked for
    let mut r = LxExtension::new(Platform::Other, Some("/home/u".to_string()));
    let _ = r.start_resolve();
    let s = r.on_path_lookup_result(completed(0, "/usr/bin/lx-lsp\n", ""));
    assert!(!matches!(s.action, Action::CheckFallback(_)));
    assert_eq!(expect_finish_ok(s), "/usr/bin/lx-lsp");
}

#[test]
fn whitespace_only_lookup_output_counts_as_not_found() {
    let mut r = LxExtension::new(Platform::Other, Some("/home/u".to_string()));
    let _ = r.start_resolve();
    let s = r.on_path_lookup_result(completed(0, "  \t \n ", ""));
    assert_eq!(s.status, None);
    match s.action {
        Action::CheckFallback(p) => assert_eq!(p, "/home/u/go/bin/lx-lsp"),
        other => panic!("expected the fallback check, got {:?}", other),
    }
}

#[test]
fn signal_terminated_lookup_counts_as_not_found() {
    let mut r = LxExtension::new(Platform::Other, Some("/home/u".to_string()));
    let _ = r.start_resolve();
    let s = r.on_path_lookup_result(ExecOutcome::Completed {
        status_code: None,
        stdout: "/usr/bin/lx-lsp\n".to_string(),
        stderr: String::new(),
    });
    assert!(matches!(s.action, Action::CheckFallback(_)));
}

#[test]
fn fallback_directory_resolves_without_toolchain_or_install() {
    let mut r = LxExtension::new(Platform::Other, Some("/home/u".to_string()));
    let _ = r.start_resolve();
    let s2 = r.on_path_lookup_result(completed(1, "", ""));
    assert!(matches!(s2.action, Action::CheckFallback(_)));
    let s3 = r.on_fallback_result(true);
    assert_eq!(s3.status, Some(Status::NoStatus));
    assert_eq!(expect_finish_ok(s3), "/home/u/go/bin/lx-lsp");
}

#[test]
fn missing_toolchain_fails_before_any_install() {
    let mut r = LxExtension::new(Platform::Other, Some("/home/u".to_string()));
    let _ = r.start_resolve();
    let s2 = r.on_path_lookup_result(completed(1, "", ""));
    assert!(matches!(s2.action, Action::CheckFallback(_)));
    let s3 = r.on_fallback_result(false);
    let req = match &s3.action {
        Action::RunToolchainCheck(req) => req,
        other => panic!("expected the toolchain check, got {:?}", other),
    };
    assert_eq!(req.program, "go");
    assert_eq!(req.args, vec!["version".to_string()]);

    let s4 = r.on_toolchain_result(ExecOutcome::SpawnFailed {
        message: "No such file or directory".to_string(),
    });
    // the failure is immediate: the action finishes, no install was asked for
    match &s4.status {
        Some(Status::Failed(m)) => assert!(m.contains("Go toolchain not found")),
        other => panic!("expected a failure status, got {:?}", other),
    }
    match expect_finish_err(s4) {
        ResolveError::ToolchainMissing(m) => assert!(m.contains("Go")),
        other => panic!("expected ToolchainMissing, got {:?}", other),
    }
}

#[test]
fn toolchain_exit_nonzero_also_counts_as_missing() {
    let mut r = LxExtension::new(Platform::Other, None);
    let _ = r.start_resolve();
    let _ = r.on_path_lookup_result(completed(1, "", ""));
    let s = r.on_toolchain_result(completed(2, "", ""));
    assert!(matches!(
        expect_finish_err(s),
        ResolveError::ToolchainMissing(_)
    ));
}

#[test]
fn install_failure_carries_stderr_verbatim() {
    let mut r = LxExtension::new(Platform::Other, None);
    let _ = r.start_resolve();
    let _ = r.on_path_lookup_result(completed(1, "", ""));
    let s3 = r.on_toolchain_result(completed(0, "go version go1.22.0 linux/amd64\n", ""));
    assert_eq!(s3.status, Some(Status::Downloading));
    let req = match &s3.action {
        Action::RunInstall(req) => req,
        other => panic!("expected the install, got {:?}", other),
    };
    assert_eq!(req.program, "go");
    assert_eq!(
        req.args,
        vec![
            "install".to_string(),
            "github.com/kamal-hamza/lx-lsp@latest".to_string()
        ]
    );

    let s4 = r.on_install_result(completed(1, "", "go: module not found"));
    let msg = match expect_finish_err(s4) {
        ResolveError::InstallFailed(m) => m,
        other => panic!("expected InstallFailed, got {:?}", other),
    };
    assert_eq!(msg, "Failed to install lx-lsp. Error: go: module not found");
}

#[test]
fn install_spawn_failure_carries_the_spawn_error() {
    let mut r = LxExtension::new(Platform::Other, None);
    let _ = r.start_resolve();
    let _ = r.on_path_lookup_result(completed(1, "", ""));
    let _ = r.on_toolchain_result(completed(0, "", ""));
    let s = r.on_install_result(ExecOutcome::SpawnFailed {
        message: "permission denied".to_string(),
    });
    let msg = match expect_finish_err(s) {
        ResolveError::InstallFailed(m) => m,
        other => panic!("expected InstallFailed, got {:?}", other),
    };
    assert_eq!(msg, "Failed to run go install: permission denied");
}

#[test]
fn install_then_lookup_resolves_and_caches() {
    let mut r = LxExtension::new(Platform::Other, Some("/home/u".to_string()));
    let _ = r.start_resolve();
    let _ = r.on_path_lookup_result(completed(1, "", ""));
    let _ = r.on_fallback_result(false);
    let _ = r.on_toolchain_result(completed(0, "", ""));
    let s5 = r.on_install_result(completed(0, "", ""));
    assert_eq!(s5.status, None);
    let req = expect_lookup(&s5);
    assert_eq!(req.program, "which");

    let s6 = r.on_path_lookup_result(completed(0, "/home/u/go/bin/lx-lsp\n", ""));
    assert_eq!(s6.status, Some(Status::NoStatus));
    assert_eq!(expect_finish_ok(s6), "/home/u/go/bin/lx-lsp");

    // the path is cached for the rest of the process lifetime
    let s7 = r.start_resolve();
    assert_eq!(s7.status, None);
    assert_eq!(expect_finish_ok(s7), "/home/u/go/bin/lx-lsp");
}

#[test]
fn binary_lost_after_install_is_reported() {
    let mut r = LxExtension::new(Platform::Other, Some("/home/u".to_string()));
    let _ = r.start_resolve();
    let _ = r.on_path_lookup_result(completed(1, "", ""));
    let _ = r.on_fallback_result(false);
    let _ = r.on_toolchain_result(completed(0, "", ""));
    let _ = r.on_install_result(completed(0, "", ""));
    let s6 = r.on_path_lookup_result(completed(1, "", ""));
    assert!(matches!(s6.action, Action::CheckFallback(_)));
    let s7 = r.on_fallback_result(false);
    match &s7.status {
        Some(Status::Failed(m)) => {
            assert_eq!(m, "Failed to locate installed language server binary")
        }
        other => panic!("expected a failure status, got {:?}", other),
    }
    let msg = match expect_finish_err(s7) {
        ResolveError::NotLocatable(m) => m,
        other => panic!("expected NotLocatable, got {:?}", other),
    };
    assert_eq!(msg, "Failed to locate installed language server binary");

    // the failure did not poison the cache: the next attempt starts over
    let s8 = r.start_resolve();
    assert_eq!(s8.status, Some(Status::CheckingForUpdate));
    assert!(matches!(s8.action, Action::RunPathLookup(_)));
}

#[test]
fn failed_attempt_leaves_cache_empty_for_retry() {
    let mut r = LxExtension::new(Platform::Other, None);
    let _ = r.start_resolve();
    let _ = r.on_path_lookup_result(completed(1, "", ""));
    let _ = r.on_toolchain_result(ExecOutcome::SpawnFailed {
        message: "gone".to_string(),
    });
    assert_eq!(r.language_server_command(), None);

    // a retry can now succeed end to end
    let _ = r.start_resolve();
    let s = r.on_path_lookup_result(completed(0, "/usr/bin/lx-lsp\n", ""));
    assert_eq!(expect_finish_ok(s), "/usr/bin/lx-lsp");
}

#[test]
fn windows_uses_where_and_exe_suffix() {
    let mut r = LxExtension::new(Platform::Windows, Some("C:\\Users\\u".to_string()));
    assert_eq!(r.get_binary_name(), "lx-lsp.exe");
    let s1 = r.start_resolve();
    let req = expect_lookup(&s1);
    assert_eq!(req.program, "where");
    assert_eq!(req.args, vec!["lx-lsp.exe".to_string()]);

    let s2 = r.on_path_lookup_result(completed(1, "", ""));
    match s2.action {
        Action::CheckFallback(p) => assert_eq!(p, "C:\\Users\\u/go/bin/lx-lsp.exe"),
        other => panic!("expected the fallback check, got {:?}", other),
    }
}

#[test]
fn other_platforms_use_which_and_plain_name() {
    let r = LxExtension::new(Platform::Other, None);
    assert_eq!(r.get_binary_name(), "lx-lsp");
}

#[test]
fn launch_command_uses_cached_path_with_empty_args_and_env() {
    let mut r = LxExtension::new(Platform::Other, None);
    assert_eq!(r.language_server_command(), None);
    let _ = r.start_resolve();
    let _ = r.on_path_lookup_result(completed(0, "/usr/bin/lx-lsp\n", ""));
    let cmd = r.language_server_command().expect("a path was resolved");
    assert_eq!(cmd.command, "/usr/bin/lx-lsp");
    assert!(cmd.args.is_empty());
    assert!(cmd.env.is_empty());
}

#[test]
fn error_message_returns_the_carried_text() {
    let e = ResolveError::ToolchainMissing("install Go first".to_string());
    assert_eq!(e.message(), "install Go first");
    let e = ResolveError::InstallFailed("stderr text".to_string());
    assert_eq!(e.message(), "stderr text");
    let e = ResolveError::NotLocatable("nowhere".to_string());
    assert_eq!(e.message(), "nowhere");
}
