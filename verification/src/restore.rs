//! Putting the managed shortcuts back on the desktop: the scripts that do
//! it, the plans that run them, and the decisions between the runs.

use vstd::prelude::*;
use crate::paths::managed_store_folders_spec;
use crate::powershell::{elevated_launcher_spec, hidden_command_args, hidden_command_args_spec, elevated_launcher, watchdog_args, watchdog_args_spec};
use crate::paths::{helper_path_spec, elevated_helper_path, watchdog_helper_path};
use crate::text::{is_main_separator, starts_verbatim};

verus! {

/// Moves every managed item back to its desktop where the desktop has no
/// item of that name.
pub const RESTORE_SCRIPT: &'static str = r#"
$root = Join-Path $env:LOCALAPPDATA 'Qizhuo\Shortcuts'
$sets = @(
  [pscustomobject]@{ Desktop = [Environment]::GetFolderPath('Desktop'); Store = (Join-Path $root 'User') },
  [pscustomobject]@{ Desktop = [Environment]::GetFolderPath('CommonDesktopDirectory'); Store = (Join-Path $root 'Common') }
)
foreach ($set in $sets) {
  Get-ChildItem -LiteralPath $set.Store -Force -ErrorAction SilentlyContinue | ForEach-Object {
    $destination = Join-Path $set.Desktop $_.Name
    if (-not (Test-Path -LiteralPath $destination)) { Move-Item -LiteralPath $_.FullName -Destination $destination -ErrorAction SilentlyContinue }
  }
}
"#;

/// Moves the items of the shared desktop back, run with administrator
/// rights; stops at the first failure.
pub const RESTORE_COMMON_SCRIPT: &'static str = r#"
$ErrorActionPreference = 'Stop'
$root = Join-Path $env:LOCALAPPDATA 'Qizhuo\Shortcuts'
$store = Join-Path $root 'Common'
$desktop = [Environment]::GetFolderPath('CommonDesktopDirectory')
$resolvedRoot = [IO.Path]::GetFullPath($root)
$resolvedStore = [IO.Path]::GetFullPath($store)
$resolvedDesktop = [IO.Path]::GetFullPath($desktop)
if (-not $resolvedStore.StartsWith($resolvedRoot, [StringComparison]::OrdinalIgnoreCase)) { throw 'Unexpected managed store' }
if ($resolvedDesktop -ne [IO.Path]::GetFullPath([Environment]::GetFolderPath('CommonDesktopDirectory'))) { throw 'Unexpected desktop' }
Get-ChildItem -LiteralPath $resolvedStore -Force -ErrorAction SilentlyContinue | ForEach-Object {
  $destination = Join-Path $resolvedDesktop $_.Name
  if (-not (Test-Path -LiteralPath $destination)) {
    Move-Item -LiteralPath $_.FullName -Destination $destination -ErrorAction Stop
  }
}
"#;

/// Waits for the process given as its argument to end, then moves every
/// managed item back to its desktop.
pub const WATCHDOG_SCRIPT: &'static str = r#"
$ErrorActionPreference = 'SilentlyContinue'
$ownerPid = [int]$args[0]
Wait-Process -Id $ownerPid -ErrorAction SilentlyContinue
$root = Join-Path $env:LOCALAPPDATA 'Qizhuo\Shortcuts'
$sets = @(
  [pscustomobject]@{ Desktop = [Environment]::GetFolderPath('Desktop'); Store = (Join-Path $root 'User') },
  [pscustomobject]@{ Desktop = [Environment]::GetFolderPath('CommonDesktopDirectory'); Store = (Join-Path $root 'Common') }
)
foreach ($set in $sets) {
  Get-ChildItem -LiteralPath $set.Store -Force -ErrorAction SilentlyContinue | ForEach-Object {
    $destination = Join-Path $set.Desktop $_.Name
    if (-not (Test-Path -LiteralPath $destination)) {
      Move-Item -LiteralPath $_.FullName -Destination $destination -ErrorAction SilentlyContinue
    }
  }
}
"#;

/// What listing one folder of the managed store gave.
#[derive(Clone, Copy, Debug, PartialEq, Eq, Structural)]
pub enum FolderListing {
    /// The folder could not be read (it may not exist).
    Unreadable,
    /// The folder holds nothing.
    Empty,
    /// The folder holds at least one item.
    HasEntries,
}

/// The store is empty when no folder of it was seen to hold an item; a
/// folder that cannot be read counts as empty.
pub open spec fn store_empty_spec(listings: Seq<FolderListing>) -> bool {
    forall|i: int| 0 <= i < listings.len() ==> listings[i] != FolderListing::HasEntries
}

/// Whether the managed store is empty, from the listing of each of its
/// folders.
pub fn managed_store_is_empty(listings: &Vec<FolderListing>) -> (r: bool)
    ensures
        r == store_empty_spec(listings@),
{
    let n: usize = listings.len();
    let mut i: usize = 0;
    while i < n
        invariant
            i <= n,
            n == listings@.len(),
            forall|k: int| 0 <= k < i ==> listings@[k] != FolderListing::HasEntries,
        decreases n - i,
    {
        if listings[i] == FolderListing::HasEntries {
            return false;
        }
        i = i + 1;
    }
    true
}

/// A helper script to write to disk and the arguments of the PowerShell
/// that runs it.
pub struct HelperLaunch {
    /// Where to write the script.
    pub helper_path: String,
    /// The script's text.
    pub script: String,
    /// The arguments of `powershell.exe`.
    pub arguments: Vec<String>,
}

/// Where the elevated helper script is written.
pub open spec fn elevated_helper_spec(data_dir: Seq<char>, separator: char) -> Seq<char> {
    helper_path_spec(data_dir, "restore-common-desktop.ps1"@, separator)
}

/// How to put the shared desktop's items back with administrator rights:
/// the plan (write the helper script into the data directory, then run a
/// hidden PowerShell that starts an elevated one on it and passes on its
/// exit code), and the runner that carries it out, with its first action.
/// The runner waits for the script: its outcome is `false` when creating
/// the directory or writing the script fails (no process is started),
/// else whether the run succeeded; the script is removed after the run
/// either way (`law_helper_run`).
pub fn restore_common_shortcuts_elevated(data_dir: &str, separator: char) -> (r: (HelperLaunch, HelperRunner, HelperAction))
    requires
        is_main_separator(separator),
    ensures
        !starts_verbatim(data_dir@, separator) ==> r.0.helper_path@ == elevated_helper_spec(data_dir@, separator),
        r.0.script@ == RESTORE_COMMON_SCRIPT@,
        r.0.arguments@.map_values(|s: String| s@) == hidden_command_args_spec(elevated_launcher_spec(r.0.helper_path@)),
        r.1@ == (HelperPhase::Creating, true),
        r.2 == HelperAction::CreateDirectory,
{
    let helper_path = elevated_helper_path(data_dir, separator);
    let launcher = elevated_launcher(helper_path.as_str());
    let arguments = hidden_command_args(launcher.as_str());
    let plan = HelperLaunch { helper_path, script: String::from_str(RESTORE_COMMON_SCRIPT), arguments };
    let (runner, action) = HelperRunner::new(true);
    (plan, runner, action)
}

/// Where the watchdog script is written.
pub open spec fn watchdog_helper_spec(data_dir: Seq<char>, separator: char) -> Seq<char> {
    helper_path_spec(data_dir, "restore-watchdog.ps1"@, separator)
}

/// How to start the watchdog that restores the shortcuts once the process
/// `pid` has ended, however it ends: the plan (write its script into the
/// data directory and run it, hidden, with `pid` as its argument), and the
/// runner that carries it out, with its first action. The runner only
/// starts the script and keeps it: when creating the directory or writing
/// the script fails, no process is started (`law_helper_run`).
pub fn start_restore_watchdog(data_dir: &str, pid: u32, separator: char) -> (r: (HelperLaunch, HelperRunner, HelperAction))
    requires
        is_main_separator(separator),
    ensures
        !starts_verbatim(data_dir@, separator) ==> r.0.helper_path@ == watchdog_helper_spec(data_dir@, separator),
        r.0.script@ == WATCHDOG_SCRIPT@,
        r.0.arguments@.map_values(|s: String| s@) == watchdog_args_spec(r.0.helper_path@, pid as nat),
        r.1@ == (HelperPhase::Creating, false),
        r.2 == HelperAction::CreateDirectory,
{
    let helper_path = watchdog_helper_path(data_dir, separator);
    let arguments = watchdog_args(helper_path.as_str(), pid);
    let plan = HelperLaunch { helper_path, script: String::from_str(WATCHDOG_SCRIPT), arguments };
    let (runner, action) = HelperRunner::new(false);
    (plan, runner, action)
}

/// The arguments of the hidden PowerShell that runs the restore script.
pub fn restore_script_args() -> (r: Vec<String>)
    ensures
        r@.map_values(|s: String| s@) == hidden_command_args_spec(RESTORE_SCRIPT@),
{
    hidden_command_args(RESTORE_SCRIPT)
}

/// The next piece of work while restoring the managed shortcuts.
#[derive(Clone, Copy, Debug, PartialEq, Eq, Structural)]
pub enum RestoreAction {
    /// Run the restore script (`restore_script_args`); the report is not read.
    RunRestoreScript,
    /// List the store's folders; report whether the store is empty.
    CheckStore,
    /// Run the elevated restore of the shared desktop; the report is not read.
    RunElevatedRestore,
    /// Stop: whether every managed item is back.
    Finish(bool),
}

/// Where the restorer stands.
#[derive(Clone, Copy, Debug, PartialEq, Eq, Structural)]
pub enum RestorePhase {
    Restoring,
    FirstCheck,
    Elevating,
    SecondCheck,
    Done(bool),
}

/// The action handed out on entering a phase.
pub open spec fn restore_action(p: RestorePhase) -> RestoreAction {
    match p {
        RestorePhase::Restoring => RestoreAction::RunRestoreScript,
        RestorePhase::FirstCheck => RestoreAction::CheckStore,
        RestorePhase::Elevating => RestoreAction::RunElevatedRestore,
        RestorePhase::SecondCheck => RestoreAction::CheckStore,
        RestorePhase::Done(b) => RestoreAction::Finish(b),
    }
}

/// The phase after the current one's work reported `report`.
pub open spec fn next_restore_phase(p: RestorePhase, report: bool) -> RestorePhase {
    match p {
        RestorePhase::Restoring => RestorePhase::FirstCheck,
        RestorePhase::FirstCheck => if report { RestorePhase::SecondCheck } else { RestorePhase::Elevating },
        RestorePhase::Elevating => RestorePhase::SecondCheck,
        RestorePhase::SecondCheck => RestorePhase::Done(report),
        RestorePhase::Done(b) => RestorePhase::Done(b),
    }
}

/// Puts the managed shortcuts back: the restore script first, then, only
/// if items remain, the elevated restore; the store is checked again at
/// the end and its emptiness is the outcome.
pub struct ShortcutRestorer {
    phase: RestorePhase,
}

impl View for ShortcutRestorer {
    type V = RestorePhase;

    closed spec fn view(&self) -> RestorePhase {
        self.phase
    }
}

impl ShortcutRestorer {
    /// A restorer about to start; its first action is `RunRestoreScript`.
    pub fn new() -> (r: (ShortcutRestorer, RestoreAction))
        ensures
            r.0@ == RestorePhase::Restoring,
            r.1 == RestoreAction::RunRestoreScript,
    {
        (ShortcutRestorer { phase: RestorePhase::Restoring }, RestoreAction::RunRestoreScript)
    }

    /// Where the restorer stands.
    pub fn phase(&self) -> (r: RestorePhase)
        ensures
            r == self@,
    {
        self.phase
    }

    /// Takes the report of the last action; returns the next one.
    pub fn advance(&mut self, report: bool) -> (r: RestoreAction)
        ensures
            final(self)@ == next_restore_phase(old(self)@, report),
            r == restore_action(final(self)@),
    {
        let next = match self.phase {
            RestorePhase::Restoring => RestorePhase::FirstCheck,
            RestorePhase::FirstCheck => if report { RestorePhase::SecondCheck } else { RestorePhase::Elevating },
            RestorePhase::Elevating => RestorePhase::SecondCheck,
            RestorePhase::SecondCheck => RestorePhase::Done(report),
            RestorePhase::Done(b) => RestorePhase::Done(b),
        };
        self.phase = next;
        match next {
            RestorePhase::Restoring => RestoreAction::RunRestoreScript,
            RestorePhase::FirstCheck => RestoreAction::CheckStore,
            RestorePhase::Elevating => RestoreAction::RunElevatedRestore,
            RestorePhase::SecondCheck => RestoreAction::CheckStore,
            RestorePhase::Done(b) => RestoreAction::Finish(b),
        }
    }
}

/// The phase after the reports `reports`, from the start.
pub open spec fn restore_phase_after(reports: Seq<bool>) -> RestorePhase
    decreases reports.len(),
{
    if reports.len() == 0 {
        RestorePhase::Restoring
    } else {
        next_restore_phase(restore_phase_after(reports.drop_last()), reports.last())
    }
}

/// The restorer is done after at most four reports; it succeeds exactly
/// when the check that ends it found the store empty; the elevated restore
/// (which asks the user for rights) runs only when the first check found
/// items left.
pub proof fn law_restore_outcome(reports: Seq<bool>)
    requires
        reports.len() >= 4,
    ensures
        restore_phase_after(reports) is Done,
        restore_phase_after(reports.take(2)) == (if reports[1] {
            RestorePhase::SecondCheck
        } else {
            RestorePhase::Elevating
        }),
        reports[1] ==> restore_phase_after(reports.take(3)) == RestorePhase::Done(reports[2]),
        !reports[1] ==> restore_phase_after(reports.take(4)) == RestorePhase::Done(reports[3]),
    decreases reports.len(),
{
    let r1 = reports.take(1);
    let r2 = reports.take(2);
    let r3 = reports.take(3);
    let r4 = reports.take(4);
    assert(r1.drop_last() =~= Seq::<bool>::empty());
    assert(r2.drop_last() =~= r1);
    assert(r3.drop_last() =~= r2);
    assert(r4.drop_last() =~= r3);
    assert(restore_phase_after(r1.drop_last()) == RestorePhase::Restoring);
    assert(restore_phase_after(r1) == RestorePhase::FirstCheck);
    if reports.len() == 4 {
        assert(reports =~= r4);
    } else {
        law_restore_outcome(reports.drop_last());
        assert(reports.drop_last().take(4) =~= r4);
        assert(reports.drop_last()[1] == reports[1]);
    }
}

/// The next piece of work while running a helper script.
#[derive(Clone, Copy, Debug, PartialEq, Eq, Structural)]
pub enum HelperAction {
    /// Create the data directory with its parents; report success.
    CreateDirectory,
    /// Write the script to its helper path; report success.
    WriteScript,
    /// Start PowerShell on the script, with the plan's arguments. When the
    /// runner waits, report whether the process ran and exited with
    /// success; otherwise whether it started.
    RunScript,
    /// Remove the helper script; the report is not read.
    RemoveScript,
    /// Stop: whether the script ran (and, when waited for, succeeded).
    Finish(bool),
}

/// Where a helper run stands.
#[derive(Clone, Copy, Debug, PartialEq, Eq, Structural)]
pub enum HelperPhase {
    Creating,
    Writing,
    Running,
    /// The script ran, with this outcome; it is being removed.
    Removing(bool),
    Done(bool),
}

/// The action handed out on entering a phase.
pub open spec fn helper_action(p: HelperPhase) -> HelperAction {
    match p {
        HelperPhase::Creating => HelperAction::CreateDirectory,
        HelperPhase::Writing => HelperAction::WriteScript,
        HelperPhase::Running => HelperAction::RunScript,
        HelperPhase::Removing(_) => HelperAction::RemoveScript,
        HelperPhase::Done(b) => HelperAction::Finish(b),
    }
}

/// The phase after the current one's work reported `report`; a run that is
/// waited for removes its script before finishing, one that is not (the
/// watchdog, which outlives the application) leaves it.
pub open spec fn next_helper_phase(p: HelperPhase, waits: bool, report: bool) -> HelperPhase {
    match p {
        HelperPhase::Creating => if report { HelperPhase::Writing } else { HelperPhase::Done(false) },
        HelperPhase::Writing => if report { HelperPhase::Running } else { HelperPhase::Done(false) },
        HelperPhase::Running => if waits { HelperPhase::Removing(report) } else { HelperPhase::Done(report) },
        HelperPhase::Removing(b) => HelperPhase::Done(b),
        HelperPhase::Done(b) => HelperPhase::Done(b),
    }
}

/// Runs a helper script of a `HelperLaunch`: the elevated restore waits
/// for its script and removes it; the watchdog is only started.
pub struct HelperRunner {
    phase: HelperPhase,
    waits: bool,
}

impl View for HelperRunner {
    type V = (HelperPhase, bool);

    closed spec fn view(&self) -> (HelperPhase, bool) {
        (self.phase, self.waits)
    }
}

impl HelperRunner {
    /// A run about to start; its first action is `CreateDirectory`.
    pub fn new(waits: bool) -> (r: (HelperRunner, HelperAction))
        ensures
            r.0@ == (HelperPhase::Creating, waits),
            r.1 == HelperAction::CreateDirectory,
    {
        (HelperRunner { phase: HelperPhase::Creating, waits }, HelperAction::CreateDirectory)
    }

    /// Whether the runner waits for the script to end.
    pub fn waits(&self) -> (r: bool)
        ensures
            r == self@.1,
    {
        self.waits
    }

    /// Takes the report of the last action; returns the next one.
    pub fn advance(&mut self, report: bool) -> (r: HelperAction)
        ensures
            final(self)@ == (next_helper_phase(old(self)@.0, old(self)@.1, report), old(self)@.1),
            r == helper_action(final(self)@.0),
    {
        let next = match self.phase {
            HelperPhase::Creating => if report { HelperPhase::Writing } else { HelperPhase::Done(false) },
            HelperPhase::Writing => if report { HelperPhase::Running } else { HelperPhase::Done(false) },
            HelperPhase::Running => if self.waits { HelperPhase::Removing(report) } else { HelperPhase::Done(report) },
            HelperPhase::Removing(b) => HelperPhase::Done(b),
            HelperPhase::Done(b) => HelperPhase::Done(b),
        };
        self.phase = next;
        match next {
            HelperPhase::Creating => HelperAction::CreateDirectory,
            HelperPhase::Writing => HelperAction::WriteScript,
            HelperPhase::Running => HelperAction::RunScript,
            HelperPhase::Removing(_) => HelperAction::RemoveScript,
            HelperPhase::Done(b) => HelperAction::Finish(b),
        }
    }
}

/// The phase of a helper run after the reports `reports`.
pub open spec fn helper_phase_after(waits: bool, reports: Seq<bool>) -> HelperPhase
    decreases reports.len(),
{
    if reports.len() == 0 {
        HelperPhase::Creating
    } else {
        next_helper_phase(helper_phase_after(waits, reports.drop_last()), waits, reports.last())
    }
}

/// How far a helper run can have come after a number of reports.
proof fn lemma_helper_phase_by_length(waits: bool, reports: Seq<bool>)
    ensures
        ({
            let p = helper_phase_after(waits, reports);
            &&& reports.len() == 0 ==> p == HelperPhase::Creating
            &&& reports.len() == 1 ==> p is Writing || p is Done
            &&& reports.len() == 2 ==> p is Running || p is Done
            &&& reports.len() >= 3 ==> p is Removing || p is Done
        }),
    decreases reports.len(),
{
    if reports.len() > 0 {
        lemma_helper_phase_by_length(waits, reports.drop_last());
    }
}

/// The script runs only once the directory exists and the script was
/// written; the run's outcome is the report of running it; a run that is
/// waited for removes its script before it finishes; any run is done after
/// at most four reports.
pub proof fn law_helper_run(waits: bool, reports: Seq<bool>)
    requires
        reports.len() >= 4,
    ensures
        helper_phase_after(waits, reports) is Done,
        helper_phase_after(waits, reports) == HelperPhase::Done(true) ==> reports[0] && reports[1] && reports[2],
        helper_phase_after(waits, reports.take(2)) == HelperPhase::Running <==> reports[0] && reports[1],
        waits && reports[0] && reports[1] ==> helper_phase_after(waits, reports.take(3)) == HelperPhase::Removing(
            reports[2],
        ) && helper_phase_after(waits, reports) == HelperPhase::Done(reports[2]),
        !waits && reports[0] && reports[1] ==> helper_phase_after(waits, reports) == HelperPhase::Done(reports[2]),
        !reports[0] ==> helper_phase_after(waits, reports.take(1)) == HelperPhase::Done(false)
            && helper_phase_after(waits, reports) == HelperPhase::Done(false),
        reports[0] && !reports[1] ==> helper_phase_after(waits, reports.take(2)) == HelperPhase::Done(false)
            && helper_phase_after(waits, reports) == HelperPhase::Done(false),
        forall|k: int| 0 <= k <= reports.len() && #[trigger] helper_phase_after(waits, reports.take(k)) == HelperPhase::Running
            ==> k == 2 && reports[0] && reports[1],
    decreases reports.len(),
{
    let r1 = reports.take(1);
    let r2 = reports.take(2);
    let r3 = reports.take(3);
    let r4 = reports.take(4);
    assert(r1.drop_last() =~= Seq::<bool>::empty());
    assert(r2.drop_last() =~= r1);
    assert(r3.drop_last() =~= r2);
    assert(r4.drop_last() =~= r3);
    assert(helper_phase_after(waits, r1.drop_last()) == HelperPhase::Creating);
    assert forall|k: int| 0 <= k <= reports.len() && #[trigger] helper_phase_after(waits, reports.take(k))
        == HelperPhase::Running implies k == 2 && reports[0] && reports[1] by {
        lemma_helper_phase_by_length(waits, reports.take(k));
        if k == 2 {
            assert(reports.take(k) =~= r2);
        }
    }
    assert(r1.last() == reports[0]);
    assert(r2.last() == reports[1]);
    assert(r3.last() == reports[2]);
    assert(r4.last() == reports[3]);
    let p1 = helper_phase_after(waits, r1);
    assert(p1 == next_helper_phase(HelperPhase::Creating, waits, reports[0]));
    let p2 = helper_phase_after(waits, r2);
    assert(p2 == next_helper_phase(p1, waits, reports[1]));
    let p3 = helper_phase_after(waits, r3);
    assert(p3 == next_helper_phase(p2, waits, reports[2]));
    let p4 = helper_phase_after(waits, r4);
    assert(p4 == next_helper_phase(p3, waits, reports[3]));
    if reports.len() == 4 {
        assert(reports =~= r4);
    } else {
        law_helper_run(waits, reports.drop_last());
        assert(reports.drop_last().take(4) =~= r4);
        assert(reports.drop_last().take(3) =~= r3);
        assert(reports.drop_last().take(2) =~= r2);
        assert(reports.drop_last()[0] == reports[0]);
        assert(reports.drop_last()[1] == reports[1]);
        assert(reports.drop_last()[2] == reports[2]);
    }
}

} // verus!
