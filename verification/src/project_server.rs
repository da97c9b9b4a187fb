//! The read-only project helper server's answers: the project description, the
//! hot-reload target, the command list, project resources, and the PowerShell
//! script that captures a screenshot of the app window.
use vstd::prelude::*;
use crate::text::{join_lines, join_with_newlines};

verus! {

/// `[..].join("\n")` over the views of string slices.
pub open spec fn joined(parts: Seq<&str>) -> Seq<char> {
    join_lines(parts.map_values(|p: &str| p@))
}

pub open spec fn description_lines() -> Seq<Seq<char>> {
    seq![
        "nannou-creative-coding is a Rust workspace for nannou sketches."@,
        "The app runner lives at rust/crates/main/main.rs."@,
        "Hot-reloadable drawing code lives at rust/crates/hot_reload/lib.rs."@,
        "The hot reload script is scripts/main/RunDesktopWithHotReload.ps1."@,
    ]
}

/// Describes the project layout, one fact per line.
pub fn describe_project() -> (text: String)
    ensures
        text@ == join_lines(description_lines()),
{
    let lines = [
        "nannou-creative-coding is a Rust workspace for nannou sketches.",
        "The app runner lives at rust/crates/main/main.rs.",
        "Hot-reloadable drawing code lives at rust/crates/hot_reload/lib.rs.",
        "The hot reload script is scripts/main/RunDesktopWithHotReload.ps1.",
    ];
    let text = join_with_newlines(&lines);
    assert(lines@.map_values(|p: &str| p@) =~= description_lines());
    text
}

/// The file to edit for hot-reloaded drawing changes (the sketch crate's
/// router; its demo folders sit beside it).
pub fn hot_reload_target() -> (path: String)
    ensures
        path@ == "rust/crates/hot_reload/lib.rs"@,
{
    String::from_str("rust/crates/hot_reload/lib.rs")
}

pub open spec fn command_lines() -> Seq<Seq<char>> {
    seq![
        ".\\scripts\\main\\Install.ps1"@,
        ".\\scripts\\other\\RunDesktop.ps1"@,
        ".\\scripts\\main\\RunDesktopWithHotReload.ps1"@,
        "cargo fmt --check"@,
        "cargo check"@,
        "cargo build -p hot_reload"@,
        ".\\scripts\\other\\RunMcpServer.ps1"@,
        "MCP tool: take_screenshot"@,
    ]
}

/// The supported local commands, one per line (listed, never run).
pub fn run_commands() -> (text: String)
    ensures
        text@ == join_lines(command_lines()),
{
    let lines = [
        ".\\scripts\\main\\Install.ps1",
        ".\\scripts\\other\\RunDesktop.ps1",
        ".\\scripts\\main\\RunDesktopWithHotReload.ps1",
        "cargo fmt --check",
        "cargo check",
        "cargo build -p hot_reload",
        ".\\scripts\\other\\RunMcpServer.ps1",
        "MCP tool: take_screenshot",
    ];
    let text = join_with_newlines(&lines);
    assert(lines@.map_values(|p: &str| p@) =~= command_lines());
    text
}

/// Whether two strings hold the same characters.
pub fn str_equals(a: &str, b: &str) -> (equal: bool)
    ensures
        equal == (a@ == b@),
{
    let len = a.unicode_len();
    if len != b.unicode_len() {
        return false;
    }
    let mut i: usize = 0;
    while i < len
        invariant
            len == a@.len(),
            len == b@.len(),
            i <= len,
            forall|j: int| 0 <= j < i ==> a@[j] == b@[j],
        decreases len - i,
    {
        if a.get_char(i) != b.get_char(i) {
            return false;
        }
        i = i + 1;
    }
    assert(a@ =~= b@);
    true
}

/// The answer to a resource request: the nannou guide's address, the project
/// README (`readme`), or a message naming the unknown URI and the supported ones.
pub open spec fn resource_text(uri: Seq<char>, readme: Seq<char>) -> Seq<char> {
    if uri == "nannou://guide"@ {
        "https://guide.nannou.cc/"@
    } else if uri == "project://readme"@ {
        readme
    } else {
        "Unknown resource URI: "@ + uri + ". Supported URIs: nannou://guide, project://readme"@
    }
}

pub fn read_project_resource(uri: &str, readme: &str) -> (text: String)
    ensures
        text@ == resource_text(uri@, readme@),
{
    if str_equals(uri, "nannou://guide") {
        String::from_str("https://guide.nannou.cc/")
    } else if str_equals(uri, "project://readme") {
        String::from_str(readme)
    } else {
        let mut text = String::from_str("Unknown resource URI: ");
        text.append(uri);
        text.append(". Supported URIs: nannou://guide, project://readme");
        text
    }
}

/// The PowerShell escape of one character inside a single-quoted literal.
pub open spec fn ps_escape_char(c: char) -> Seq<char> {
    if c == '\'' { seq!['\'', '\''] } else { seq![c] }
}

/// The body of a PowerShell single-quoted literal for `s`: quotes doubled.
pub open spec fn ps_escape(s: Seq<char>) -> Seq<char>
    decreases s.len(),
{
    if s.len() == 0 {
        seq![]
    } else {
        ps_escape_char(s[0]) + ps_escape(s.skip(1))
    }
}

/// The value a PowerShell single-quoted literal body denotes: each doubled
/// quote stands for one quote.
pub open spec fn ps_unescape(s: Seq<char>) -> Seq<char>
    decreases s.len(),
{
    if s.len() == 0 {
        seq![]
    } else if s.len() >= 2 && s[0] == '\'' && s[1] == '\'' {
        seq!['\''] + ps_unescape(s.skip(2))
    } else {
        seq![s[0]] + ps_unescape(s.skip(1))
    }
}

/// `s` as a PowerShell single-quoted string literal.
pub open spec fn ps_quoted(s: Seq<char>) -> Seq<char> {
    seq!['\''] + ps_escape(s) + seq!['\'']
}

proof fn lemma_ps_escape_append(a: Seq<char>, b: Seq<char>)
    ensures
        ps_escape(a + b) == ps_escape(a) + ps_escape(b),
    decreases a.len(),
{
    if a.len() == 0 {
        assert(a + b =~= b);
    } else {
        assert((a + b).skip(1) =~= a.skip(1) + b);
        lemma_ps_escape_append(a.skip(1), b);
    }
}

proof fn lemma_ps_escape_single(c: char)
    ensures
        ps_escape(seq![c]) == ps_escape_char(c),
{
    assert(seq![c].skip(1) =~= Seq::<char>::empty());
    assert(ps_escape(Seq::<char>::empty()) == Seq::<char>::empty());
    assert(seq![c][0] == c);
    assert(ps_escape_char(c) + Seq::<char>::empty() =~= ps_escape_char(c));
}

/// Quotes `value` for PowerShell: wrapped in single quotes, with every single
/// quote doubled.
pub fn ps_single_quoted(value: &str) -> (quoted: String)
    ensures
        quoted@ == ps_quoted(value@),
{
    let len = value.unicode_len();
    let mut quoted = String::from_str("'");
    proof { reveal_strlit("'"); }
    let mut i: usize = 0;
    while i < len
        invariant
            len == value@.len(),
            i <= len,
            quoted@ == seq!['\''] + ps_escape(value@.take(i as int)),
        decreases len - i,
    {
        let c = value.get_char(i);
        if c == '\'' {
            quoted.append("''");
            proof { reveal_strlit("''"); }
        } else {
            let piece = value.substring_char(i, i + 1);
            assert(piece@ =~= seq![c]);
            quoted.append(piece);
        }
        proof {
            assert(value@.take(i + 1) =~= value@.take(i as int) + seq![c]);
            lemma_ps_escape_append(value@.take(i as int), seq![c]);
            lemma_ps_escape_single(c);
        }
        i = i + 1;
    }
    quoted.append("'");
    assert(value@.take(len as int) =~= value@);
    quoted
}

/// Quoting for PowerShell loses nothing: the literal denotes the original value.
pub proof fn ps_quoting_round_trips(value: Seq<char>)
    ensures
        ps_unescape(ps_escape(value)) == value,
    decreases value.len(),
{
    if value.len() > 0 {
        ps_quoting_round_trips(value.skip(1));
        let rest = ps_escape(value.skip(1));
        if value[0] == '\'' {
            let e = seq!['\'', '\''] + rest;
            assert(e.skip(2) =~= rest);
            assert(seq!['\''] + value.skip(1) =~= value);
        } else {
            let e = seq![value[0]] + rest;
            assert(e.skip(1) =~= rest);
            assert(seq![value[0]] + value.skip(1) =~= value);
        }
    }
}

/// The number of single quotes in `s`.
pub open spec fn quote_count(s: Seq<char>) -> nat
    decreases s.len(),
{
    if s.len() == 0 {
        0
    } else {
        (if s[0] == '\'' { 1nat } else { 0nat }) + quote_count(s.skip(1))
    }
}

/// Read left to right, every single quote is followed by a second one: every
/// maximal run of quotes has even length, so the text cannot end a
/// single-quoted literal early.
pub open spec fn quotes_in_pairs(s: Seq<char>) -> bool
    decreases s.len(),
{
    if s.len() == 0 {
        true
    } else if s[0] == '\'' {
        s.len() >= 2 && s[1] == '\'' && quotes_in_pairs(s.skip(2))
    } else {
        quotes_in_pairs(s.skip(1))
    }
}

/// The quoted form of a value starts and ends with a quote, is as long as the
/// value plus two plus one for each quote in it, and its inside holds quotes
/// only in pairs.
pub proof fn ps_quoting_shape(value: Seq<char>)
    ensures
        ps_quoted(value).len() == value.len() + 2 + quote_count(value),
        ps_quoted(value)[0] == '\'',
        ps_quoted(value).last() == '\'',
        ps_quoted(value).subrange(1, ps_quoted(value).len() - 1) == ps_escape(value),
        quotes_in_pairs(ps_escape(value)),
{
    lemma_ps_escape_shape(value);
    let q = ps_quoted(value);
    assert(q.subrange(1, q.len() - 1) =~= ps_escape(value));
}

proof fn lemma_ps_escape_shape(value: Seq<char>)
    ensures
        ps_escape(value).len() == value.len() + quote_count(value),
        quotes_in_pairs(ps_escape(value)),
    decreases value.len(),
{
    if value.len() > 0 {
        lemma_ps_escape_shape(value.skip(1));
        let rest = ps_escape(value.skip(1));
        if value[0] == '\'' {
            let e = seq!['\'', '\''] + rest;
            assert(e.skip(2) =~= rest);
        } else {
            let e = seq![value[0]] + rest;
            assert(e.skip(1) =~= rest);
        }
    }
}

/// Whether `c` has the Unicode `White_Space` property (what `char::is_whitespace`
/// tests).
pub open spec fn is_white_space(c: char) -> bool {
    let n = c as u32;
    (0x09 <= n <= 0x0d) || n == 0x20 || n == 0x85 || n == 0xa0 || n == 0x1680
        || (0x2000 <= n <= 0x200a) || n == 0x2028 || n == 0x2029 || n == 0x202f || n == 0x205f
        || n == 0x3000
}

/// `s` without its leading white space.
pub open spec fn trim_start_spec(s: Seq<char>) -> Seq<char>
    decreases s.len(),
{
    if s.len() > 0 && is_white_space(s[0]) {
        trim_start_spec(s.skip(1))
    } else {
        s
    }
}

/// `s` without its trailing white space.
pub open spec fn trim_end_spec(s: Seq<char>) -> Seq<char>
    decreases s.len(),
{
    if s.len() > 0 && is_white_space(s.last()) {
        trim_end_spec(s.drop_last())
    } else {
        s
    }
}

/// `s` without leading and trailing white space (what `str::trim` gives).
pub open spec fn trimmed(s: Seq<char>) -> Seq<char> {
    trim_end_spec(trim_start_spec(s))
}

fn white_space(c: char) -> (ws: bool)
    ensures
        ws == is_white_space(c),
{
    let n = c as u32;
    (0x09 <= n && n <= 0x0d) || n == 0x20 || n == 0x85 || n == 0xa0 || n == 0x1680
        || (0x2000 <= n && n <= 0x200a) || n == 0x2028 || n == 0x2029 || n == 0x202f || n == 0x205f
        || n == 0x3000
}

proof fn lemma_trim_start_skip(s: Seq<char>, i: int)
    requires
        0 <= i <= s.len(),
        forall|k: int| 0 <= k < i ==> is_white_space(#[trigger] s[k]),
    ensures
        trim_start_spec(s) == trim_start_spec(s.subrange(i, s.len() as int)),
    decreases i,
{
    if i > 0 {
        assert(s.skip(1).subrange(i - 1, s.skip(1).len() as int) =~= s.subrange(i, s.len() as int));
        assert forall|k: int| 0 <= k < i - 1 implies is_white_space(#[trigger] s.skip(1)[k]) by {
            assert(s.skip(1)[k] == s[k + 1]);
        }
        lemma_trim_start_skip(s.skip(1), i - 1);
    } else {
        assert(s.subrange(0, s.len() as int) =~= s);
    }
}

proof fn lemma_trim_end_take(s: Seq<char>, j: int)
    requires
        0 <= j <= s.len(),
        forall|k: int| j <= k < s.len() ==> is_white_space(#[trigger] s[k]),
    ensures
        trim_end_spec(s) == trim_end_spec(s.subrange(0, j)),
    decreases s.len() - j,
{
    if j < s.len() {
        assert(s.drop_last().subrange(0, j) =~= s.subrange(0, j));
        lemma_trim_end_take(s.drop_last(), j);
    } else {
        assert(s.subrange(0, j) =~= s);
    }
}

/// `text` without leading and trailing white space.
pub fn trim(text: &str) -> (result: &str)
    ensures
        result@ == trimmed(text@),
{
    let len = text.unicode_len();
    let mut start: usize = 0;
    while start < len && white_space(text.get_char(start))
        invariant
            len == text@.len(),
            start <= len,
            forall|k: int| 0 <= k < start ==> is_white_space(#[trigger] text@[k]),
        decreases len - start,
    {
        start = start + 1;
    }
    proof {
        lemma_trim_start_skip(text@, start as int);
    }
    let ghost rest = text@.subrange(start as int, len as int);
    assert(trim_start_spec(rest) == rest);
    let mut end: usize = len;
    while end > start && white_space(text.get_char(end - 1))
        invariant
            len == text@.len(),
            start <= end <= len,
            rest == text@.subrange(start as int, len as int),
            forall|k: int| end - start <= k < rest.len() ==> is_white_space(#[trigger] rest[k]),
        decreases end - start,
    {
        end = end - 1;
    }
    proof {
        lemma_trim_end_take(rest, end - start);
        assert(rest.subrange(0, end - start) =~= text@.subrange(start as int, end as int));
        let r = text@.subrange(start as int, end as int);
        assert(r.len() == 0 || !is_white_space(r.last()));
    }
    text.substring_char(start, end)
}

/// How a screenshot attempt went, as far as the reply depends on it. Errors
/// and the exit status come as the text their `Display` gives.
pub enum ScreenshotOutcome {
    /// The working directory could not be found.
    NoCurrentDirectory { error: String },
    /// The output directory could not be created.
    DirectoryNotCreated { error: String },
    /// PowerShell could not be started.
    NotRun { error: String },
    /// The script ran and failed.
    Failed { status: String, stdout: String, stderr: String },
    /// The script ran and succeeded, printing `stdout`.
    Captured { stdout: String },
}

/// The reply to a screenshot request: what the script printed (trimmed), or
/// the output path when it printed nothing; otherwise a message naming what
/// failed.
pub open spec fn screenshot_reply(outcome: ScreenshotOutcome, output_path: Seq<char>) -> Seq<char> {
    match outcome {
        ScreenshotOutcome::NoCurrentDirectory { error } =>
            "Failed to resolve current directory: "@ + error@,
        ScreenshotOutcome::DirectoryNotCreated { error } =>
            "Failed to create screenshot directory: "@ + error@,
        ScreenshotOutcome::NotRun { error } =>
            "Failed to run PowerShell screenshot capture: "@ + error@,
        ScreenshotOutcome::Failed { status, stdout, stderr } =>
            "Screenshot failed with status "@ + status@ + ".\nstdout:\n"@ + stdout@ + "\nstderr:\n"@
                + stderr@,
        ScreenshotOutcome::Captured { stdout } => if trimmed(stdout@).len() == 0 {
            output_path
        } else {
            trimmed(stdout@)
        },
    }
}

pub fn screenshot_answer(outcome: ScreenshotOutcome, output_path: &str) -> (reply: String)
    ensures
        reply@ == screenshot_reply(outcome, output_path@),
{
    match outcome {
        ScreenshotOutcome::NoCurrentDirectory { error } => {
            let mut reply = String::from_str("Failed to resolve current directory: ");
            reply.append(error.as_str());
            reply
        },
        ScreenshotOutcome::DirectoryNotCreated { error } => {
            let mut reply = String::from_str("Failed to create screenshot directory: ");
            reply.append(error.as_str());
            reply
        },
        ScreenshotOutcome::NotRun { error } => {
            let mut reply = String::from_str("Failed to run PowerShell screenshot capture: ");
            reply.append(error.as_str());
            reply
        },
        ScreenshotOutcome::Failed { status, stdout, stderr } => {
            let mut reply = String::from_str("Screenshot failed with status ");
            reply.append(status.as_str());
            reply.append(".\nstdout:\n");
            reply.append(stdout.as_str());
            reply.append("\nstderr:\n");
            reply.append(stderr.as_str());
            reply
        },
        ScreenshotOutcome::Captured { stdout } => {
            let printed = trim(stdout.as_str());
            if printed.unicode_len() == 0 {
                String::from_str(output_path)
            } else {
                String::from_str(printed)
            }
        },
    }
}

/// The script text before the quoted output path.
pub const SCREENSHOT_SCRIPT_HEAD: &'static str = r#"
$ErrorActionPreference = "Stop"
$outPath = "#;

/// The script text after the quoted output path: find the app's window by
/// process name, bring it forward, copy its rectangle from the screen and save
/// it as PNG, then print the path.
pub const SCREENSHOT_SCRIPT_TAIL: &'static str = r#"
Add-Type -AssemblyName System.Drawing
Add-Type @'
using System;
using System.Runtime.InteropServices;
public static class NannouScreenshot {
    [DllImport("user32.dll")] public static extern bool SetProcessDPIAware();
    [DllImport("user32.dll")] public static extern bool GetWindowRect(IntPtr hWnd, out RECT rect);
    [DllImport("user32.dll")] public static extern bool SetForegroundWindow(IntPtr hWnd);
    public struct RECT { public int Left; public int Top; public int Right; public int Bottom; }
}
'@
[NannouScreenshot]::SetProcessDPIAware() | Out-Null
$proc = Get-Process -Name nannou-creative-coding -ErrorAction Stop | Where-Object { $_.MainWindowHandle -ne 0 } | Select-Object -First 1
if ($null -eq $proc) { throw "nannou-creative-coding window was not found." }
[NannouScreenshot]::SetForegroundWindow($proc.MainWindowHandle) | Out-Null
Start-Sleep -Milliseconds 300
$rect = New-Object NannouScreenshot+RECT
[NannouScreenshot]::GetWindowRect($proc.MainWindowHandle, [ref]$rect) | Out-Null
$width = $rect.Right - $rect.Left
$height = $rect.Bottom - $rect.Top
if ($width -le 0 -or $height -le 0) { throw "Invalid window rectangle: $width x $height." }
$bitmap = New-Object System.Drawing.Bitmap $width, $height
$graphics = [System.Drawing.Graphics]::FromImage($bitmap)
$graphics.CopyFromScreen($rect.Left, $rect.Top, 0, 0, $bitmap.Size)
$bitmap.Save($outPath, [System.Drawing.Imaging.ImageFormat]::Png)
$graphics.Dispose()
$bitmap.Dispose()
$outPath
"#;

/// The PowerShell script that captures the app window into `output_path`.
pub open spec fn screenshot_script_text(output_path: Seq<char>) -> Seq<char> {
    SCREENSHOT_SCRIPT_HEAD@ + ps_quoted(output_path) + SCREENSHOT_SCRIPT_TAIL@
}

pub fn screenshot_script(output_path: &str) -> (script: String)
    ensures
        script@ == screenshot_script_text(output_path@),
{
    let mut script = String::from_str(SCREENSHOT_SCRIPT_HEAD);
    let quoted = ps_single_quoted(output_path);
    script.append(quoted.as_str());
    script.append(SCREENSHOT_SCRIPT_TAIL);
    script
}

/// The platform's path separator as a string (`std::path::MAIN_SEPARATOR_STR`).
/// Claimed: it is `"/"` or `"\\"`; which one depends on the target platform.
#[verifier::external_body]
fn main_separator() -> (separator: &'static str)
    ensures
        separator@ == "/"@ || separator@ == "\\"@,
{
    std::path::MAIN_SEPARATOR_STR
}

/// The build output directory, relative to the working directory.
pub fn target_path() -> (path: String)
    ensures
        path@ == "target"@,
{
    String::from_str("target")
}

/// The default screenshot file, with `separator` between path components.
pub open spec fn screenshot_path_text(separator: Seq<char>) -> Seq<char> {
    "target"@ + separator + "screenshots"@ + separator + "nannou-app.png"@
}

/// `target/screenshots/nannou-app.png`, joined with `separator` (what
/// `PathBuf::join` gives on a platform with that separator).
pub fn default_screenshot_path_with(separator: &str) -> (path: String)
    ensures
        path@ == screenshot_path_text(separator@),
{
    let mut path = target_path();
    path.append(separator);
    path.append("screenshots");
    path.append(separator);
    path.append("nannou-app.png");
    path
}

/// The default screenshot file, joined with the platform's separator.
pub fn default_screenshot_path() -> (path: String)
    ensures
        path@ == screenshot_path_text("/"@) || path@ == screenshot_path_text("\\"@),
{
    default_screenshot_path_with(main_separator())
}

} // verus!
