use lx_resolver::probe::probe_path_from_stdout;

#[test]
fn single_line_with_trailing_newline() {
    let r = probe_path_from_stdout("/usr/local/bin/lx-lsp\n");
    assert_eq!(r, Some("/usr/local/bin/lx-lsp".to_string()));
}

#[test]
fn no_trailing_newline() {
    let r = probe_path_from_stdout("/usr/local/bin/lx-lsp");
    assert_eq!(r, Some("/usr/local/bin/lx-lsp".to_string()));
}

#[test]
fn surrounding_whitespace_is_trimmed() {
    let r = probe_path_from_stdout("  \t/opt/bin/lx-lsp \t \n");
    assert_eq!(r, Some("/opt/bin/lx-lsp".to_string()));
}

#[test]
fn empty_output_is_not_found() {
    assert_eq!(probe_path_from_stdout(""), None);
}

#[test]
fn whitespace_only_output_is_not_found() {
    assert_eq!(probe_path_from_stdout(" \t\r\n  \n"), None);
}

#[test]
fn first_of_several_lines_wins() {
    let r = probe_path_from_stdout("/usr/bin/lx-lsp\n/home/u/go/bin/lx-lsp\n");
    assert_eq!(r, Some("/usr/bin/lx-lsp".to_string()));
}

#[test]
fn windows_style_crlf_lines() {
    let r = probe_path_from_stdout(
        "C:\\Users\\u\\go\\bin\\lx-lsp.exe\r\nC:\\other\\lx-lsp.exe\r\n",
    );
    assert_eq!(r, Some("C:\\Users\\u\\go\\bin\\lx-lsp.exe".to_string()));
}

#[test]
fn interior_carriage_return_without_newline_is_kept() {
    let r = probe_path_from_stdout("a\rb\n");
    assert_eq!(r, Some("a\rb".to_string()));
}
