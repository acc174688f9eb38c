//! Engine processes left behind by an earlier session: how to look for them,
//! how to tell that one is there, how to end it. A process counts as an
//! engine by its invocation: the engine's image, run with `run -c`.

use crate::daemon::DaemonState;
use crate::platform::Platform;
use crate::text::{chars_of, extend_chars, string_of, strings, trim, trimmed};
use vstd::prelude::*;
use vstd::string::*;

verus! {

/// The name of the engine's image.
pub open spec fn engine_image(platform: Platform) -> Seq<char> {
    match platform {
        Platform::Windows => "v2ray.exe"@,
        _ => "v2ray"@,
    }
}

/// The arguments that every engine invocation begins with.
pub open spec fn engine_invocation() -> Seq<char> {
    "run -c"@
}

/// The invocation by which an engine process is recognised: the image, a
/// space, and the leading arguments.
pub open spec fn engine_pattern(platform: Platform) -> Seq<char> {
    engine_image(platform) + " "@ + engine_invocation()
}

fn image_name(platform: Platform) -> (image: &'static str)
    ensures
        image@ == engine_image(platform),
{
    match platform {
        Platform::Windows => "v2ray.exe",
        _ => "v2ray",
    }
}

/// Writes the invocation by which an engine process is recognised.
pub fn process_pattern(platform: Platform) -> (pattern: String)
    ensures
        pattern@ == engine_pattern(platform),
{
    let mut out = chars_of(image_name(platform));
    extend_chars(&mut out, &chars_of(" "));
    extend_chars(&mut out, &chars_of("run -c"));
    string_of(&out)
}

/// The PowerShell expression that selects the engine processes on Windows:
/// the processes of the engine's image whose command line holds the leading
/// arguments.
pub open spec fn windows_selection() -> Seq<char> {
    "Get-CimInstance Win32_Process | Where-Object { $_.Name -eq '"@ + engine_image(
        Platform::Windows,
    ) + "' -and $_.CommandLine -like '* "@ + engine_invocation() + " *' }"@
}

fn selection() -> (out: Vec<char>)
    ensures
        out@ == windows_selection(),
{
    let mut out = chars_of("Get-CimInstance Win32_Process | Where-Object { $_.Name -eq '");
    extend_chars(&mut out, &chars_of(image_name(Platform::Windows)));
    extend_chars(&mut out, &chars_of("' -and $_.CommandLine -like '* "));
    extend_chars(&mut out, &chars_of("run -c"));
    extend_chars(&mut out, &chars_of(" *' }"));
    out
}

/// The PowerShell invocation that carries a script out.
pub open spec fn powershell_line(script: Seq<char>) -> Seq<Seq<char>> {
    seq!["powershell"@, "-NoProfile"@, "-Command"@, script]
}

fn powershell(script: &Vec<char>) -> (argv: Vec<String>)
    ensures
        strings(argv@) == powershell_line(script@),
{
    let mut argv: Vec<String> = Vec::new();
    argv.push("powershell".to_owned());
    argv.push("-NoProfile".to_owned());
    argv.push("-Command".to_owned());
    argv.push(string_of(script));
    assert(strings(argv@) =~= powershell_line(script@));
    argv
}

/// The command that looks for engine processes. On Windows it prints the
/// identifier of each process selected; elsewhere `pgrep` matches the
/// invocation against the full command lines.
pub open spec fn probe_line(platform: Platform) -> Seq<Seq<char>> {
    match platform {
        Platform::Windows => powershell_line(
            windows_selection() + " | ForEach-Object { $_.ProcessId }"@,
        ),
        _ => seq!["pgrep"@, "-f"@, engine_pattern(platform)],
    }
}

/// The command that ends the engine processes, and no others: it selects
/// them as the probe does.
pub open spec fn kill_line(platform: Platform) -> Seq<Seq<char>> {
    match platform {
        Platform::Windows => powershell_line(
            windows_selection() + " | ForEach-Object { Stop-Process -Id $_.ProcessId -Force }"@,
        ),
        _ => seq!["pkill"@, "-f"@, engine_pattern(platform)],
    }
}

/// Writes the command that looks for engine processes.
pub fn stray_probe(platform: Platform) -> (argv: Vec<String>)
    ensures
        strings(argv@) == probe_line(platform),
{
    match platform {
        Platform::Windows => {
            let mut script = selection();
            extend_chars(&mut script, &chars_of(" | ForEach-Object { $_.ProcessId }"));
            powershell(&script)
        },
        _ => {
            let mut argv: Vec<String> = Vec::new();
            argv.push("pgrep".to_owned());
            argv.push("-f".to_owned());
            argv.push(process_pattern(platform));
            assert(strings(argv@) =~= probe_line(platform));
            argv
        },
    }
}

/// Writes the command that ends the engine processes.
pub fn stray_kill(platform: Platform) -> (argv: Vec<String>)
    ensures
        strings(argv@) == kill_line(platform),
{
    match platform {
        Platform::Windows => {
            let mut script = selection();
            extend_chars(
                &mut script,
                &chars_of(" | ForEach-Object { Stop-Process -Id $_.ProcessId -Force }"),
            );
            powershell(&script)
        },
        _ => {
            let mut argv: Vec<String> = Vec::new();
            argv.push("pkill".to_owned());
            argv.push("-f".to_owned());
            argv.push(process_pattern(platform));
            assert(strings(argv@) =~= kill_line(platform));
            argv
        },
    }
}

/// What the probe command gave.
pub struct ProbeResult {
    /// Whether the command ended with success.
    pub success: bool,
    /// What the command wrote to its output.
    pub stdout: String,
}

/// Whether the probe found an engine process. The probe must have ended with
/// success; on Windows it must also have printed something, since it
/// succeeds without a match as well. A probe that could not run finds
/// nothing.
pub open spec fn stray_detected(platform: Platform, probe: Option<ProbeResult>) -> bool {
    match probe {
        Some(result) => match platform {
            Platform::Windows => result.success && trimmed(result.stdout@).len() > 0,
            _ => result.success,
        },
        None => false,
    }
}

/// Decides on the probe's result whether engine processes are to be ended:
/// gives the command to do so if one was found. While the supervisor holds
/// an engine of its own, nothing is ended: the command goes by the
/// invocation and would end that engine too.
pub fn clear_v2ray_core_service(
    platform: Platform,
    probe: &Option<ProbeResult>,
    daemon: &DaemonState,
) -> (kill: Option<Vec<String>>)
    ensures
        match kill {
            Some(argv) => {
                &&& stray_detected(platform, *probe)
                &&& daemon@.child is None
                &&& strings(argv@) == kill_line(platform)
            },
            None => !stray_detected(platform, *probe) || daemon@.child is Some,
        },
{
    let found = match probe {
        Some(result) => match platform {
            Platform::Windows => result.success && trim(&chars_of(result.stdout.as_str())).len()
                > 0,
            _ => result.success,
        },
        None => false,
    };
    if found && !daemon.status() {
        Some(stray_kill(platform))
    } else {
        None
    }
}

} // verus!
