//! The desktop items the page shows, and the decisions behind opening one.

use vstd::prelude::*;
use crate::powershell::{hidden_command_args, hidden_command_args_spec};

verus! {

/// One item found on a desktop or in the managed store.
#[derive(Clone, Debug)]
pub struct DesktopApp {
    /// The name shown under the icon.
    pub name: String,
    /// What opening the item opens.
    pub target: String,
    /// Where the item itself lies (in the managed store once moved there).
    pub source: String,
    /// The icon as a `data:` URL of a PNG, or empty.
    pub icon: String,
    /// `app`, `file` or `folder`.
    pub kind: String,
}

/// Lists the shortcuts to programs and, for the user's desktop, the other
/// files and folders, and prints the items as one JSON array. An item that
/// lies on a desktop is moved into the managed store only once it is sure
/// to be listed (it passed the selection of at most 120 distinct items, and
/// its icon, where one is needed, was read); an item that cannot be moved
/// is neither moved nor listed, so every item that leaves the desktop is
/// listed. The output is always an array, one item or none included.
pub const SCAN_SCRIPT: &'static str = r#"
[Console]::OutputEncoding = [System.Text.Encoding]::UTF8
$OutputEncoding = [System.Text.Encoding]::UTF8
Add-Type -AssemblyName System.Drawing
$shell = New-Object -ComObject WScript.Shell
$root = Join-Path $env:LOCALAPPDATA 'Qizhuo\Shortcuts'
$sets = @(
  [pscustomobject]@{ Desktop = [Environment]::GetFolderPath('Desktop'); Store = (Join-Path $root 'User') },
  [pscustomobject]@{ Desktop = [Environment]::GetFolderPath('CommonDesktopDirectory'); Store = (Join-Path $root 'Common') }
)
function Get-IconData($path) {
  $icon = [System.Drawing.Icon]::ExtractAssociatedIcon($path)
  if (-not $icon) { return $null }
  $stream = New-Object IO.MemoryStream
  $bitmap = $icon.ToBitmap()
  $bitmap.Save($stream, [System.Drawing.Imaging.ImageFormat]::Png)
  $data = 'data:image/png;base64,' + [Convert]::ToBase64String($stream.ToArray())
  $bitmap.Dispose(); $icon.Dispose(); $stream.Dispose()
  return $data
}
$candidates = @()
foreach ($set in $sets) {
  New-Item -ItemType Directory -Force -Path $set.Store | Out-Null
  foreach ($location in @($set.Store, $set.Desktop)) {
    $onDesktop = ($location -eq $set.Desktop)
    Get-ChildItem -LiteralPath $location -Filter '*.lnk' -File -Force -ErrorAction SilentlyContinue | Select-Object -First 36 | ForEach-Object {
      try {
        $shortcut = $shell.CreateShortcut($_.FullName)
        $target = $shortcut.TargetPath
        if ($target -and (Test-Path -LiteralPath $target) -and ([IO.Path]::GetExtension($target) -ieq '.exe')) {
          $destination = Join-Path $set.Store $_.Name
          if ($onDesktop -and (Test-Path -LiteralPath $destination)) { return }
          $iconData = Get-IconData $target
          if ($iconData) {
            $candidates += [pscustomobject]@{ name = $_.BaseName; target = $target; source = $_.FullName; icon = $iconData; kind = 'app'; onDesktop = $onDesktop; destination = $destination }
          }
        }
      } catch {}
    }
  }
  if ($set.Store.EndsWith('User')) {
    foreach ($location in @($set.Store, $set.Desktop)) {
      $onDesktop = ($location -eq $set.Desktop)
      Get-ChildItem -LiteralPath $location -Force -ErrorAction SilentlyContinue | Where-Object { $_.Extension -ne '.lnk' -and $_.Name -ne 'desktop.ini' -and -not ($_.Attributes -band [IO.FileAttributes]::System) } | Select-Object -First 80 | ForEach-Object {
        try {
          $isFolder = $_.PSIsContainer
          $destination = Join-Path $set.Store $_.Name
          if ($onDesktop -and (Test-Path -LiteralPath $destination)) { return }
          $iconData = ''
          if (-not $isFolder) {
            $iconData = Get-IconData $_.FullName
            if (-not $iconData) { $iconData = '' }
          }
          $candidates += [pscustomobject]@{ name = $_.Name; target = $_.FullName; source = $_.FullName; icon = $iconData; kind = $(if ($isFolder) { 'folder' } else { 'file' }); onDesktop = $onDesktop; destination = $destination }
        } catch {}
      }
    }
  }
}
$items = @()
foreach ($item in @($candidates | Sort-Object kind,name -Unique | Select-Object -First 120)) {
  try {
    $managedPath = $item.source
    if ($item.onDesktop) {
      if (Test-Path -LiteralPath $item.destination) { continue }
      Move-Item -LiteralPath $item.source -Destination $item.destination -ErrorAction Stop
      if (-not (Test-Path -LiteralPath $item.destination)) { continue }
      $managedPath = $item.destination
    }
    $target = $item.target
    if ($item.kind -ne 'app') { $target = $managedPath }
    $items += [pscustomobject]@{ name = $item.name; target = $target; source = $managedPath; icon = $item.icon; kind = $item.kind }
  } catch {}
}
ConvertTo-Json -InputObject @($items) -Compress
"#;

/// The arguments of the hidden PowerShell that runs the scan.
pub fn scan_args() -> (r: Vec<String>)
    ensures
        r@.map_values(|s: String| s@) == hidden_command_args_spec(SCAN_SCRIPT@),
{
    hidden_command_args(SCAN_SCRIPT)
}

/// The items a scan yields: what its output parsed to when the scan
/// succeeded and its output parsed, no item otherwise.
pub fn scan_outcome(succeeded: bool, parsed: Option<Vec<DesktopApp>>) -> (r: Vec<DesktopApp>)
    ensures
        r@ == (match parsed {
            Some(apps) if succeeded => apps@,
            _ => Seq::<DesktopApp>::empty(),
        }),
{
    match parsed {
        Some(apps) if succeeded => apps,
        _ => Vec::new(),
    }
}

/// Why an item could not be opened or its menu shown.
#[derive(Clone, Copy, Debug, PartialEq, Eq, Structural)]
pub enum ItemError {
    /// The item is gone.
    Missing,
    /// The main window could not be found.
    MainWindowNotFound,
    /// The thread that shows the system menu failed.
    MenuThreadFailed,
    /// The system has no shell context menu.
    Unsupported,
    /// The shell could not be initialised.
    ShellInitFailed,
}

impl ItemError {
    /// The message shown to the user.
    pub open spec fn text(self) -> Seq<char> {
        match self {
            ItemError::Missing => "项目已不存在"@,
            ItemError::MainWindowNotFound => "找不到主窗口"@,
            ItemError::MenuThreadFailed => "系统菜单线程异常"@,
            ItemError::Unsupported => "当前系统不支持 Windows 右键菜单"@,
            ItemError::ShellInitFailed => "无法初始化 Windows Shell"@,
        }
    }

    /// The message shown to the user.
    pub fn message(&self) -> (r: String)
        ensures
            r@ == self.text(),
    {
        match self {
            ItemError::Missing => String::from_str("项目已不存在"),
            ItemError::MainWindowNotFound => String::from_str("找不到主窗口"),
            ItemError::MenuThreadFailed => String::from_str("系统菜单线程异常"),
            ItemError::Unsupported => String::from_str("当前系统不支持 Windows 右键菜单"),
            ItemError::ShellInitFailed => String::from_str("无法初始化 Windows Shell"),
        }
    }
}

/// An item can be acted on only while it exists.
pub fn require_existing(exists: bool) -> (r: Result<(), ItemError>)
    ensures
        r == (if exists { Ok(()) } else { Err(ItemError::Missing) }),
{
    if exists {
        Ok(())
    } else {
        Err(ItemError::Missing)
    }
}

/// How an item is opened.
#[derive(Clone, Copy, Debug, PartialEq, Eq, Structural)]
pub enum OpenAction {
    /// Start the item itself as a program.
    Launch,
    /// Hand the item to `explorer.exe`.
    Explore,
}

/// `c` in ASCII lower case.
pub open spec fn ascii_lower(c: char) -> char {
    if 'A' <= c <= 'Z' {
        ((c as u32) + 32) as char
    } else {
        c
    }
}

/// Whether an extension is `exe` in any ASCII case.
pub open spec fn is_exe_extension(e: Seq<char>) -> bool {
    e.len() == 3 && ascii_lower(e[0]) == 'e' && ascii_lower(e[1]) == 'x' && ascii_lower(e[2]) == 'e'
}

fn lower_ascii(c: char) -> (r: char)
    ensures
        r == ascii_lower(c),
{
    if 'A' <= c && c <= 'Z' {
        let u: u32 = (c as u32) + 32;
        assert(0x41 + 32 <= u <= 0x5a + 32);
        char_from_ascii_letter(u)
    } else {
        c
    }
}

fn char_from_ascii_letter(u: u32) -> (r: char)
    requires
        0x61 <= u <= 0x7a,
    ensures
        r == u as char,
{
    match u {
        0x61 => 'a',
        0x62 => 'b',
        0x63 => 'c',
        0x64 => 'd',
        0x65 => 'e',
        0x66 => 'f',
        0x67 => 'g',
        0x68 => 'h',
        0x69 => 'i',
        0x6a => 'j',
        0x6b => 'k',
        0x6c => 'l',
        0x6d => 'm',
        0x6e => 'n',
        0x6f => 'o',
        0x70 => 'p',
        0x71 => 'q',
        0x72 => 'r',
        0x73 => 's',
        0x74 => 't',
        0x75 => 'u',
        0x76 => 'v',
        0x77 => 'w',
        0x78 => 'x',
        0x79 => 'y',
        _ => 'z',
    }
}

/// Whether an extension is `exe` in any ASCII case, as
/// `eq_ignore_ascii_case("exe")` decides it.
pub fn exe_extension(e: &str) -> (r: bool)
    ensures
        r == is_exe_extension(e@),
{
    if e.unicode_len() != 3 {
        return false;
    }
    lower_ascii(e.get_char(0)) == 'e' && lower_ascii(e.get_char(1)) == 'x' && lower_ascii(e.get_char(2)) == 'e'
}

/// How an item is opened: an existing file whose extension is `exe` is
/// started; anything else that exists goes to the file explorer.
pub open spec fn open_action_spec(exists: bool, is_file: bool, extension: Option<Seq<char>>) -> Result<OpenAction, ItemError> {
    if !exists {
        Err(ItemError::Missing)
    } else if is_file && (match extension {
        Some(e) => is_exe_extension(e),
        None => false,
    }) {
        Ok(OpenAction::Launch)
    } else {
        Ok(OpenAction::Explore)
    }
}

/// How an item is opened, from whether it exists, whether it is a file, and
/// its extension.
pub fn choose_open_action(exists: bool, is_file: bool, extension: Option<&str>) -> (r: Result<OpenAction, ItemError>)
    ensures
        r == open_action_spec(
            exists,
            is_file,
            match extension {
                Some(e) => Some(e@),
                None => None,
            },
        ),
{
    if !exists {
        return Err(ItemError::Missing);
    }
    let exe = match extension {
        Some(e) => exe_extension(e),
        None => false,
    };
    if is_file && exe {
        Ok(OpenAction::Launch)
    } else {
        Ok(OpenAction::Explore)
    }
}

/// `std::path::Path::extension` of `path`, as text.
///
/// The contract claims what the documentation gives on Windows and Unix:
/// the extension follows the final `.` of the file name, so it holds no
/// `.` and appears in the path right after a `.`; a path without `.` has
/// none; where the path ends in none of `/`, `\` and `.`, its file name
/// ends the path, and so does the extension. Where the path plainly ends
/// in a file name with an extension (`has_plain_extension`), or names such
/// a file on a network share (`has_share_extension`), that is the
/// extension found; a file name that is `.` and a word after a `/`
/// (`has_dot_file_name`) has none. Which component is the file name in
/// other paths, and whether an extension is found there, depend on the
/// platform's separators and prefixes and are left unsaid.
#[verifier::external_body]
fn path_extension(path: &str) -> (r: Option<String>)
    ensures
        !path@.contains('.') ==> r is None,
        match r {
            Some(e) => {
                &&& !e@.contains('.')
                &&& (path@.len() > 0 && !ends_in_separator_or_dot(path@)) ==> path@.len() >= e@.len() + 1
                    && path@.subrange(path@.len() - e@.len() - 1, path@.len() as int) == seq!['.'] + e@
                &&& exists|i: int|
                    0 <= i && i + e@.len() + 1 <= path@.len() && #[trigger] path@.subrange(i, i + e@.len() + 1)
                        == seq!['.'] + e@
                &&& forall|x: Seq<char>| #[trigger] has_plain_extension(path@, x) ==> x == e@
                &&& forall|x: Seq<char>| #[trigger] has_share_extension(path@, x) ==> x == e@
                &&& forall|x: Seq<char>| !#[trigger] has_dot_file_name(path@, x)
            },
            None => {
                &&& forall|x: Seq<char>| !#[trigger] has_plain_extension(path@, x)
                &&& forall|x: Seq<char>| !#[trigger] has_share_extension(path@, x)
            },
        },
{
    std::path::Path::new(path).extension().and_then(|e| e.to_str()).map(|e| e.to_string())
}

/// A character that can stand in an extension that is plainly one: no
/// `.`, no separator, no `:`.
pub open spec fn is_extension_char(c: char) -> bool {
    c != '.' && c != '/' && c != '\\' && c != ':'
}

/// The path starts with two separators, as Windows UNC, device and
/// verbatim paths do.
pub open spec fn starts_with_two_separators(s: Seq<char>) -> bool {
    s.len() >= 2 && (s[0] == '/' || s[0] == '\\') && (s[1] == '/' || s[1] == '\\')
}

/// The path ends in a file name whose extension is `e`: it ends with `.`
/// and `e`, `e` holds no `.`, separator or `:`, and the character before
/// the `.` is no separator and no `:` (nor a `.` when `e` is empty).
pub open spec fn ends_with_extension(s: Seq<char>, e: Seq<char>) -> bool {
    let n = s.len();
    let k = e.len();
    &&& n >= k + 2
    &&& s.subrange(n - k - 1, n as int) == seq!['.'] + e
    &&& forall|i: int| 0 <= i < k ==> is_extension_char(#[trigger] e[i])
    &&& s[n - k - 2] != '/' && s[n - k - 2] != '\\' && s[n - k - 2] != ':'
    &&& (k == 0 ==> s[n - k - 2] != '.')
}

/// The path plainly ends in a file name whose extension is `e`, on Windows
/// and Unix alike: it ends so, and does not start with two separators.
pub open spec fn has_plain_extension(s: Seq<char>, e: Seq<char>) -> bool {
    ends_with_extension(s, e) && !starts_with_two_separators(s)
}

/// A server or share name: not empty, no separator.
pub open spec fn is_component(a: Seq<char>) -> bool {
    a.len() > 0 && forall|i: int| 0 <= i < a.len() ==> #[trigger] a[i] != '/' && a[i] != '\\'
}

/// The path names a file on a network share whose extension is `e`, on
/// Windows and Unix alike: `\\`, a server name (not `?` nor `.`, which
/// would make a verbatim or device path), `\`, a share name, `\`, then
/// the rest, which ends in a file name with extension `e`.
pub open spec fn has_share_extension(s: Seq<char>, e: Seq<char>) -> bool {
    exists|i: int, j: int|
        #![trigger s.subrange(2, i), s.subrange(i + 1, j)]
        {
            &&& s.len() >= 2 && s[0] == '\\' && s[1] == '\\'
            &&& 2 < i < j
            &&& j + 1 < s.len() - e.len() - 1
            &&& s[i] == '\\' && s[j] == '\\'
            &&& is_component(s.subrange(2, i))
            &&& s.subrange(2, i) != seq!['?'] && s.subrange(2, i) != seq!['.']
            &&& is_component(s.subrange(i + 1, j))
            &&& ends_with_extension(s, e)
        }
}

/// The path ends in `/` and a file name made of `.` and `e` alone (`e`
/// not empty, holding no `.`, separator or `:`), and does not start with
/// two separators: a name that begins with its only `.` has no extension.
pub open spec fn has_dot_file_name(s: Seq<char>, e: Seq<char>) -> bool {
    let n = s.len();
    let k = e.len();
    &&& k > 0
    &&& n >= k + 2
    &&& s.subrange(n - k - 2, n as int) == seq!['/', '.'] + e
    &&& forall|i: int| 0 <= i < k ==> is_extension_char(#[trigger] e[i])
    &&& !starts_with_two_separators(s)
}

/// The path's last character is `/`, `\` or `.`.
pub open spec fn ends_in_separator_or_dot(s: Seq<char>) -> bool {
    s.len() > 0 && (s.last() == '/' || s.last() == '\\' || s.last() == '.')
}

/// The text ends with `.` and `exe` in any ASCII case.
pub open spec fn ends_with_exe_extension(s: Seq<char>) -> bool {
    s.len() >= 4 && s[s.len() - 4] == '.' && is_exe_extension(s.subrange(s.len() - 3, s.len() as int))
}

/// Some `.` in the text is followed by `exe` in any ASCII case.
pub open spec fn mentions_exe_extension(s: Seq<char>) -> bool {
    exists|i: int| 0 <= i && i + 4 <= s.len() && s[i] == '.' && #[trigger] is_exe_extension(s.subrange(i + 1, i + 4))
}

/// How to open the item at `target`, given whether it exists and whether
/// it is a file: a program file (extension `exe`) is started, anything
/// else goes to the file explorer.
pub fn open_item(target: &str, exists: bool, is_file: bool) -> (r: Result<OpenAction, ItemError>)
    ensures
        !exists ==> r == Err::<OpenAction, ItemError>(ItemError::Missing),
        exists ==> r is Ok,
        r == Ok::<OpenAction, ItemError>(OpenAction::Launch) ==> is_file && mentions_exe_extension(target@),
        r == Ok::<OpenAction, ItemError>(OpenAction::Launch) && target@.len() > 0 && !ends_in_separator_or_dot(target@)
            ==> ends_with_exe_extension(target@),
        exists && (!is_file || !target@.contains('.')) ==> r == Ok::<OpenAction, ItemError>(OpenAction::Explore),
        forall|e: Seq<char>|
            exists && #[trigger] has_plain_extension(target@, e) ==> r == Ok::<OpenAction, ItemError>(
                if is_file && is_exe_extension(e) {
                    OpenAction::Launch
                } else {
                    OpenAction::Explore
                },
            ),
        forall|e: Seq<char>|
            exists && #[trigger] has_share_extension(target@, e) ==> r == Ok::<OpenAction, ItemError>(
                if is_file && is_exe_extension(e) {
                    OpenAction::Launch
                } else {
                    OpenAction::Explore
                },
            ),
        forall|e: Seq<char>|
            exists && #[trigger] has_dot_file_name(target@, e) ==> r == Ok::<OpenAction, ItemError>(OpenAction::Explore),
{
    let extension = path_extension(target);
    let r = match &extension {
        Some(e) => choose_open_action(exists, is_file, Some(e.as_str())),
        None => choose_open_action(exists, is_file, None),
    };
    proof {
        if r == Ok::<OpenAction, ItemError>(OpenAction::Launch) {
            let e = extension->0@;
            let i = choose|i: int|
                0 <= i && i + e.len() + 1 <= target@.len() && #[trigger] target@.subrange(i, i + e.len() + 1)
                    == seq!['.'] + e;
            assert(target@[i] == target@.subrange(i, i + 4)[0]);
            assert(target@.subrange(i + 1, i + 4) =~= target@.subrange(i, i + 4).skip(1));
            assert((seq!['.'] + e).skip(1) =~= e);
            if target@.len() > 0 && !ends_in_separator_or_dot(target@) {
                let n = target@.len() as int;
                let t = target@.subrange(n - 4, n);
                assert(t[0] == target@[n - 4]);
                assert(target@.subrange(n - 3, n) =~= t.skip(1));
            }
        }
    }
    r
}

/// Which of the shell menu's verbs to invoke for the command id that the
/// popup menu returned: ids start at 1, verbs at 0; 0 means nothing chosen.
pub fn selected_verb(selected: i32) -> (r: Option<usize>)
    ensures
        r == (if selected > 0 { Some((selected - 1) as usize) } else { None::<usize> }),
{
    if selected > 0 {
        Some((selected - 1) as usize)
    } else {
        None
    }
}

} // verus!
