use nannou_creative_coding::project_server::{
    default_screenshot_path, default_screenshot_path_with, describe_project, hot_reload_target,
    ps_single_quoted, read_project_resource, run_commands, screenshot_answer, screenshot_script,
    target_path, trim, ScreenshotOutcome,
    SCREENSHOT_SCRIPT_HEAD, SCREENSHOT_SCRIPT_TAIL,
};

#[test]
fn describes_the_project_layout() {
    let text = describe_project();
    assert_eq!(text.lines().count(), 4);
    assert!(text.starts_with("nannou-creative-coding is a Rust workspace for nannou sketches.\n"));
    assert!(text.ends_with("The hot reload script is scripts/main/RunDesktopWithHotReload.ps1."));
    assert_eq!(hot_reload_target(), "rust/crates/hot_reload/lib.rs");
    assert!(text.contains("\nHot-reloadable drawing code lives at rust/crates/hot_reload/lib.rs.\n"));
}

#[test]
fn lists_commands_one_per_line() {
    let text = run_commands();
    let lines: Vec<&str> = text.lines().collect();
    assert_eq!(lines.len(), 8);
    assert_eq!(lines[0], ".\\scripts\\main\\Install.ps1");
    assert_eq!(lines[1], ".\\scripts\\other\\RunDesktop.ps1");
    assert_eq!(lines[2], ".\\scripts\\main\\RunDesktopWithHotReload.ps1");
    assert_eq!(lines[6], ".\\scripts\\other\\RunMcpServer.ps1");
    assert_eq!(lines[7], "MCP tool: take_screenshot");
}

#[test]
fn answers_resource_requests() {
    assert_eq!(read_project_resource("nannou://guide", "readme"), "https://guide.nannou.cc/");
    assert_eq!(read_project_resource("project://readme", "# Title"), "# Title");
    assert_eq!(
        read_project_resource("nope://x", "readme"),
        "Unknown resource URI: nope://x. Supported URIs: nannou://guide, project://readme"
    );
    assert_eq!(
        read_project_resource("nannou://guid", "r"),
        "Unknown resource URI: nannou://guid. Supported URIs: nannou://guide, project://readme"
    );
}

#[test]
fn quotes_for_powershell() {
    assert_eq!(ps_single_quoted("C:\\target\\a.png"), "'C:\\target\\a.png'");
    assert_eq!(ps_single_quoted("it's"), "'it''s'");
    assert_eq!(ps_single_quoted(""), "''");
    assert_eq!(ps_single_quoted("é'"), "'é'''");
}

#[test]
fn screenshot_script_embeds_the_quoted_path() {
    let script = screenshot_script("C:\\o'k.png");
    assert_eq!(script, format!("{}'C:\\o''k.png'{}", SCREENSHOT_SCRIPT_HEAD, SCREENSHOT_SCRIPT_TAIL));
    assert!(script.starts_with("\n$ErrorActionPreference = \"Stop\"\n$outPath = 'C:\\o''k.png'\nAdd-Type"));
    assert!(script.contains("public static class NannouScreenshot {\n"));
    assert!(script.ends_with("$bitmap.Dispose()\n$outPath\n"));
}

#[test]
fn screenshot_paths_live_under_target() {
    assert_eq!(target_path(), "target");
    assert_eq!(default_screenshot_path_with("/"), "target/screenshots/nannou-app.png");
    assert_eq!(default_screenshot_path_with("\\"), "target\\screenshots\\nannou-app.png");
    let expected: std::path::PathBuf = ["target", "screenshots", "nannou-app.png"].iter().collect();
    assert_eq!(default_screenshot_path(), expected.display().to_string());
}

#[test]
fn quoted_values_grow_by_their_quotes_plus_two() {
    for value in ["", "plain", "it's", "''", "'a''b'''"] {
        let quoted = ps_single_quoted(value);
        let quotes = value.matches('\'').count();
        assert_eq!(quoted.chars().count(), value.chars().count() + 2 + quotes);
        let inner = &quoted[1..quoted.len() - 1];
        assert_eq!(inner.replace("''", "'"), value);
    }
}

#[test]
fn trims_like_str_trim() {
    for text in ["", "  ", " a b \n", "\u{3000}x\u{85}", "\t\r\nC:\\o.png\r\n", "no-space"] {
        assert_eq!(trim(text), text.trim());
    }
}

#[test]
fn screenshot_answer_prefers_printed_path_then_output_path() {
    let printed = ScreenshotOutcome::Captured { stdout: "C:\\shot.png\r\n".to_string() };
    assert_eq!(screenshot_answer(printed, "D:\\x.png"), "C:\\shot.png");
    let silent = ScreenshotOutcome::Captured { stdout: " \n".to_string() };
    assert_eq!(screenshot_answer(silent, "D:\\x.png"), "D:\\x.png");
    let failed = ScreenshotOutcome::Failed {
        status: "exit code: 1".to_string(),
        stdout: "out".to_string(),
        stderr: "err".to_string(),
    };
    assert_eq!(
        screenshot_answer(failed, "p"),
        "Screenshot failed with status exit code: 1.\nstdout:\nout\nstderr:\nerr"
    );
    let not_run = ScreenshotOutcome::NotRun { error: "not found".to_string() };
    assert_eq!(screenshot_answer(not_run, "p"), "Failed to run PowerShell screenshot capture: not found");
    let no_dir = ScreenshotOutcome::DirectoryNotCreated { error: "denied".to_string() };
    assert_eq!(screenshot_answer(no_dir, "p"), "Failed to create screenshot directory: denied");
    let no_cwd = ScreenshotOutcome::NoCurrentDirectory { error: "gone".to_string() };
    assert_eq!(screenshot_answer(no_cwd, ""), "Failed to resolve current directory: gone");
}
