//! Command lines for the hidden PowerShell processes that move shortcuts
//! between the desktop and the managed store.

use vstd::prelude::*;
use crate::text::{decimal, decimal_string, double_single_quotes, escape_single_quotes, read_single_quoted, lemma_double_single_quotes_reads_back};

verus! {

/// The arguments that run `command` in a hidden, non-interactive
/// PowerShell without a profile.
pub open spec fn hidden_command_args_spec(command: Seq<char>) -> Seq<Seq<char>> {
    seq!["-NoProfile"@, "-NonInteractive"@, "-WindowStyle"@, "Hidden"@, "-Command"@, command]
}

/// The arguments that run `command` in a hidden, non-interactive
/// PowerShell without a profile.
pub fn hidden_command_args(command: &str) -> (r: Vec<String>)
    ensures
        r@.map_values(|s: String| s@) == hidden_command_args_spec(command@),
{
    let r = vec![
        String::from_str("-NoProfile"),
        String::from_str("-NonInteractive"),
        String::from_str("-WindowStyle"),
        String::from_str("Hidden"),
        String::from_str("-Command"),
        String::from_str(command),
    ];
    assert(r@.map_values(|s: String| s@) =~= hidden_command_args_spec(command@));
    r
}

/// The arguments with which the elevated PowerShell runs the helper
/// script at `helper`.
pub open spec fn helper_argument_spec(helper: Seq<char>) -> Seq<char> {
    "-NoProfile -ExecutionPolicy Bypass -File \""@ + helper + "\""@
}

/// The text before the quoted argument list of the launcher.
pub open spec fn launcher_head() -> Seq<char> {
    "$p=Start-Process -FilePath 'powershell.exe' -Verb RunAs -WindowStyle Hidden -ArgumentList '"@
}

/// The text after the quoted argument list of the launcher.
pub open spec fn launcher_tail() -> Seq<char> {
    "' -Wait -PassThru; exit $p.ExitCode"@
}

/// The command that starts an elevated PowerShell on the helper script,
/// waits for it and exits with its exit code.
pub open spec fn elevated_launcher_spec(helper: Seq<char>) -> Seq<char> {
    launcher_head() + double_single_quotes(helper_argument_spec(helper)) + launcher_tail()
}

/// The command that starts an elevated PowerShell on the helper script
/// at `helper`, waits for it and exits with its exit code.
pub fn elevated_launcher(helper: &str) -> (r: String)
    ensures
        r@ == elevated_launcher_spec(helper@),
{
    let mut argument = String::from_str("-NoProfile -ExecutionPolicy Bypass -File \"");
    argument.append(helper);
    argument.append("\"");
    let escaped = escape_single_quotes(argument.as_str());
    let mut r = String::from_str(
        "$p=Start-Process -FilePath 'powershell.exe' -Verb RunAs -WindowStyle Hidden -ArgumentList '",
    );
    r.append(escaped.as_str());
    r.append("' -Wait -PassThru; exit $p.ExitCode");
    r
}

/// The elevated PowerShell is handed exactly the helper argument: the
/// launcher's quoted argument list reads back as it, whatever quotes the
/// helper's path holds.
pub proof fn law_launcher_passes_helper_argument(helper: Seq<char>)
    ensures
        exists|quoted: Seq<char>|
            #![trigger read_single_quoted(quoted)]
            elevated_launcher_spec(helper) == launcher_head() + quoted + launcher_tail()
                && read_single_quoted(quoted) == Some(helper_argument_spec(helper)),
{
    let quoted = double_single_quotes(helper_argument_spec(helper));
    lemma_double_single_quotes_reads_back(helper_argument_spec(helper));
    assert(elevated_launcher_spec(helper) == launcher_head() + quoted + launcher_tail());
}

/// Whatever characters the helper's path holds (spaces, quotes), the
/// launcher starts an elevated `powershell.exe` whose single-quoted
/// argument list reads back as `-NoProfile -ExecutionPolicy Bypass -File`
/// followed by the whole path between double quotes.
pub proof fn law_launcher_quotes_helper_path(helper: Seq<char>)
    ensures
        exists|quoted: Seq<char>|
            #![trigger read_single_quoted(quoted)]
            elevated_launcher_spec(helper)
                == "$p=Start-Process -FilePath 'powershell.exe' -Verb RunAs -WindowStyle Hidden -ArgumentList '"@
                + quoted + "' -Wait -PassThru; exit $p.ExitCode"@
                && read_single_quoted(quoted) == Some(
                "-NoProfile -ExecutionPolicy Bypass -File \""@ + helper + "\""@,
            ),
{
    law_launcher_passes_helper_argument(helper);
}

/// The arguments that run the watchdog script at `helper` for the process
/// `pid`, hidden and without execution policy checks.
pub open spec fn watchdog_args_spec(helper: Seq<char>, pid: nat) -> Seq<Seq<char>> {
    seq![
        "-NoProfile"@,
        "-NonInteractive"@,
        "-ExecutionPolicy"@,
        "Bypass"@,
        "-WindowStyle"@,
        "Hidden"@,
        "-File"@,
        helper,
        decimal(pid),
    ]
}

/// The arguments that run the watchdog script at `helper` for the process
/// `pid`.
pub fn watchdog_args(helper: &str, pid: u32) -> (r: Vec<String>)
    ensures
        r@.map_values(|s: String| s@) == watchdog_args_spec(helper@, pid as nat),
{
    let r = vec![
        String::from_str("-NoProfile"),
        String::from_str("-NonInteractive"),
        String::from_str("-ExecutionPolicy"),
        String::from_str("Bypass"),
        String::from_str("-WindowStyle"),
        String::from_str("Hidden"),
        String::from_str("-File"),
        String::from_str(helper),
        decimal_string(pid),
    ];
    assert(r@.map_values(|s: String| s@) =~= watchdog_args_spec(helper@, pid as nat));
    r
}

} // verus!
