//! The "Qizhuo" submenu on the desktop's background context menu: the
//! registry values that make it up and the `reg.exe` calls that write them.

use vstd::prelude::*;
use crate::command::{DesktopCommand, decode_spec, command_argument_spec, law_decode_word, string_views};

verus! {

/// One registry value to set: `name` is `None` for the key's default value.
pub struct RegistryValue {
    pub key: String,
    pub name: Option<String>,
    pub value: String,
}

/// A registry value as plain text.
pub type RegistryValueView = (Seq<char>, Option<Seq<char>>, Seq<char>);

/// The plain text of a registry value.
pub open spec fn registry_value_view(v: RegistryValue) -> RegistryValueView {
    (
        v.key@,
        match v.name {
            Some(n) => Some(n@),
            None => None,
        },
        v.value@,
    )
}

/// The arguments of `reg.exe` that set `name` (the default value when
/// `None`) of `key` to the string `value`, overwriting without asking.
pub open spec fn registry_add_args_spec(key: Seq<char>, name: Option<Seq<char>>, value: Seq<char>) -> Seq<Seq<char>> {
    seq!["add"@, key] + (match name {
        Some(n) => seq!["/v"@, n],
        None => seq!["/ve"@],
    }) + seq!["/t"@, "REG_SZ"@, "/d"@, value, "/f"@]
}

/// The arguments of `reg.exe` that set one string value.
pub fn registry_add_args(key: &str, name: Option<&str>, value: &str) -> (r: Vec<String>)
    ensures
        r@.map_values(|s: String| s@) == registry_add_args_spec(
            key@,
            match name {
                Some(n) => Some(n@),
                None => None,
            },
            value@,
        ),
{
    let mut r: Vec<String> = Vec::new();
    r.push(String::from_str("add"));
    r.push(String::from_str(key));
    match name {
        Some(n) => {
            r.push(String::from_str("/v"));
            r.push(String::from_str(n));
        },
        None => {
            r.push(String::from_str("/ve"));
        },
    }
    r.push(String::from_str("/t"));
    r.push(String::from_str("REG_SZ"));
    r.push(String::from_str("/d"));
    r.push(String::from_str(value));
    r.push(String::from_str("/f"));
    assert(r@.map_values(|s: String| s@) =~= registry_add_args_spec(
        key@,
        match name {
            Some(n) => Some(n@),
            None => None,
        },
        value@,
    ));
    r
}

/// The key of the submenu.
pub open spec fn menu_root() -> Seq<char> {
    "HKCU\\Software\\Classes\\DesktopBackground\\Shell\\Qizhuo"@
}

/// The icon of the submenu and its entries: the program's first icon.
pub open spec fn menu_icon(executable: Seq<char>) -> Seq<char> {
    executable + ",0"@
}

/// The command line an entry runs: the program, quoted, with
/// `--command` and the command's word.
pub open spec fn menu_command_line(executable: Seq<char>, c: DesktopCommand) -> Seq<char> {
    "\""@ + executable + "\" --command "@ + c.word()
}

/// The command behind the `i`-th entry, in menu order.
pub open spec fn menu_entry_command(i: int) -> DesktopCommand {
    if i == 0 {
        DesktopCommand::Show
    } else if i == 1 {
        DesktopCommand::Organize
    } else if i == 2 {
        DesktopCommand::NewCategory
    } else {
        DesktopCommand::Quit
    }
}

/// The subkey of the `i`-th entry; the numbers keep the menu order.
pub open spec fn menu_entry_order(i: int) -> Seq<char> {
    if i == 0 {
        "01Show"@
    } else if i == 1 {
        "02Organize"@
    } else if i == 2 {
        "03NewCategory"@
    } else {
        "04Quit"@
    }
}

/// The label of the `i`-th entry.
pub open spec fn menu_entry_label(i: int) -> Seq<char> {
    if i == 0 {
        "显示栖桌"@
    } else if i == 1 {
        "立即整理桌面"@
    } else if i == 2 {
        "新增分类"@
    } else {
        "退出栖桌"@
    }
}

/// The key of the `i`-th entry.
pub open spec fn menu_entry_key(i: int) -> Seq<char> {
    menu_root() + "\\shell\\"@ + menu_entry_order(i)
}

/// The values of the `i`-th entry: its label, its icon, and the command
/// line of its `command` subkey.
pub open spec fn menu_entry_values(executable: Seq<char>, i: int) -> Seq<RegistryValueView> {
    seq![
        (menu_entry_key(i), Some("MUIVerb"@), menu_entry_label(i)),
        (menu_entry_key(i), Some("Icon"@), menu_icon(executable)),
        (menu_entry_key(i) + "\\command"@, None, menu_command_line(executable, menu_entry_command(i))),
    ]
}

/// Every value that makes up the submenu, in the order they are written.
pub open spec fn context_menu_values_spec(executable: Seq<char>) -> Seq<RegistryValueView> {
    seq![
        (menu_root(), Some("MUIVerb"@), "栖桌"@),
        (menu_root(), Some("Icon"@), menu_icon(executable)),
        (menu_root(), Some("Position"@), "Top"@),
        (menu_root(), Some("SubCommands"@), ""@),
    ] + menu_entry_values(executable, 0) + menu_entry_values(executable, 1)
        + menu_entry_values(executable, 2) + menu_entry_values(executable, 3)
}

fn make_value(key: &str, name: Option<&str>, value: &str) -> (r: RegistryValue)
    ensures
        registry_value_view(r) == (
            key@,
            match name {
                Some(n) => Some(n@),
                None => None,
            },
            value@,
        ),
{
    RegistryValue {
        key: String::from_str(key),
        name: match name {
            Some(n) => Some(String::from_str(n)),
            None => None,
        },
        value: String::from_str(value),
    }
}

fn push_menu_entry(
    values: &mut Vec<RegistryValue>,
    executable: &str,
    icon: &str,
    order: &str,
    label: &str,
    command: DesktopCommand,
    Ghost(i): Ghost<int>,
)
    requires
        icon@ == menu_icon(executable@),
        order@ == menu_entry_order(i),
        label@ == menu_entry_label(i),
        command == menu_entry_command(i),
    ensures
        final(values)@.map_values(|v: RegistryValue| registry_value_view(v))
            == old(values)@.map_values(|v: RegistryValue| registry_value_view(v)) + menu_entry_values(executable@, i),
{
    let mut item_key = String::from_str("HKCU\\Software\\Classes\\DesktopBackground\\Shell\\Qizhuo");
    item_key.append("\\shell\\");
    item_key.append(order);
    let mut command_key = item_key.clone();
    command_key.append("\\command");
    let mut line = String::from_str("\"");
    line.append(executable);
    line.append("\" --command ");
    let word = command.name();
    line.append(word.as_str());
    values.push(make_value(item_key.as_str(), Some("MUIVerb"), label));
    values.push(make_value(item_key.as_str(), Some("Icon"), icon));
    values.push(make_value(command_key.as_str(), None, line.as_str()));
    assert(final(values)@.map_values(|v: RegistryValue| registry_value_view(v))
        =~= old(values)@.map_values(|v: RegistryValue| registry_value_view(v)) + menu_entry_values(executable@, i));
}

/// Every value that makes up the submenu for the program at `executable`.
pub fn context_menu_values(executable: &str) -> (r: Vec<RegistryValue>)
    ensures
        r@.map_values(|v: RegistryValue| registry_value_view(v)) == context_menu_values_spec(executable@),
{
    let mut icon = String::from_str(executable);
    icon.append(",0");
    let root = "HKCU\\Software\\Classes\\DesktopBackground\\Shell\\Qizhuo";
    let mut values: Vec<RegistryValue> = Vec::new();
    values.push(make_value(root, Some("MUIVerb"), "栖桌"));
    values.push(make_value(root, Some("Icon"), icon.as_str()));
    values.push(make_value(root, Some("Position"), "Top"));
    values.push(make_value(root, Some("SubCommands"), ""));
    push_menu_entry(&mut values, executable, icon.as_str(), "01Show", "显示栖桌", DesktopCommand::Show, Ghost(0));
    push_menu_entry(&mut values, executable, icon.as_str(), "02Organize", "立即整理桌面", DesktopCommand::Organize, Ghost(1));
    push_menu_entry(&mut values, executable, icon.as_str(), "03NewCategory", "新增分类", DesktopCommand::NewCategory, Ghost(2));
    push_menu_entry(&mut values, executable, icon.as_str(), "04Quit", "退出栖桌", DesktopCommand::Quit, Ghost(3));
    assert(values@.map_values(|v: RegistryValue| registry_value_view(v)) =~= context_menu_values_spec(executable@));
    values
}

/// The `reg.exe` arguments that set one registry value.
pub open spec fn value_args_spec(v: RegistryValueView) -> Seq<Seq<char>> {
    registry_add_args_spec(v.0, v.1, v.2)
}

/// The `reg.exe` calls, one list of arguments each, that register the
/// submenu for the program at `executable`.
pub fn register_desktop_context_menu(executable: &str) -> (r: Vec<Vec<String>>)
    ensures
        r@.len() == context_menu_values_spec(executable@).len(),
        forall|i: int|
            0 <= i < r@.len() ==> string_views(#[trigger] r@[i]@) == value_args_spec(
                context_menu_values_spec(executable@)[i],
            ),
{
    let values = context_menu_values(executable);
    let ghost spec_values = context_menu_values_spec(executable@);
    let mut calls: Vec<Vec<String>> = Vec::new();
    let n: usize = values.len();
    let mut i: usize = 0;
    while i < n
        invariant
            i <= n,
            n == values@.len(),
            values@.map_values(|v: RegistryValue| registry_value_view(v)) == spec_values,
            calls@.len() == i,
            forall|k: int|
                0 <= k < i ==> string_views(#[trigger] calls@[k]@) == value_args_spec(spec_values[k]),
        decreases n - i,
    {
        let v = &values[i];
        assert(registry_value_view(values@[i as int]) == spec_values[i as int]);
        let name = match &v.name {
            Some(n) => Some(n.as_str()),
            None => None,
        };
        let args = registry_add_args(v.key.as_str(), name, v.value.as_str());
        assert(string_views(args@) == args@.map_values(|s: String| s@));
        calls.push(args);
        i = i + 1;
    }
    calls
}

/// Every entry of the submenu runs the program with `--command` and a word
/// that the running instance decodes to the entry's command.
pub proof fn law_menu_entries_reach_listener(executable: Seq<char>, i: int)
    requires
        0 <= i < 4,
    ensures
        ({
            let c = menu_entry_command(i);
            let line = context_menu_values_spec(executable)[4 + 3 * i + 2];
            &&& line.0 == menu_entry_key(i) + "\\command"@
            &&& line.2 == menu_command_line(executable, c)
            &&& decode_spec(c.word()) == Some(c)
        }),
{
    law_decode_word(menu_entry_command(i));
    let s = context_menu_values_spec(executable);
    assert(s[4 + 3 * i + 2] == menu_entry_values(executable, i)[2]);
}

/// The four entries of the submenu sit under subkeys of their own,
/// `shell\01Show`, `shell\02Organize`, `shell\03NewCategory` and
/// `shell\04Quit`, in that order: each holds its own label and icon, and
/// its `command` subkey its own command line. No two entries share a key,
/// and none is the submenu's own key, so writing every value loses none.
pub proof fn law_menu_entries_have_own_keys(executable: Seq<char>)
    ensures
        ({
            let s = context_menu_values_spec(executable);
            let shell = "HKCU\\Software\\Classes\\DesktopBackground\\Shell\\Qizhuo\\shell\\"@;
            &&& s.len() == 16
            &&& s[4].0 == shell + "01Show"@
            &&& s[7].0 == shell + "02Organize"@
            &&& s[10].0 == shell + "03NewCategory"@
            &&& s[13].0 == shell + "04Quit"@
            &&& s[4] == (s[4].0, Some("MUIVerb"@), "显示栖桌"@)
            &&& s[7] == (s[7].0, Some("MUIVerb"@), "立即整理桌面"@)
            &&& s[10] == (s[10].0, Some("MUIVerb"@), "新增分类"@)
            &&& s[13] == (s[13].0, Some("MUIVerb"@), "退出栖桌"@)
            &&& s[5] == (s[4].0, Some("Icon"@), executable + ",0"@)
            &&& s[8] == (s[7].0, Some("Icon"@), executable + ",0"@)
            &&& s[11] == (s[10].0, Some("Icon"@), executable + ",0"@)
            &&& s[14] == (s[13].0, Some("Icon"@), executable + ",0"@)
            &&& s[6] == (s[4].0 + "\\command"@, None::<Seq<char>>, menu_command_line(executable, DesktopCommand::Show))
            &&& s[9] == (s[7].0 + "\\command"@, None::<Seq<char>>, menu_command_line(executable, DesktopCommand::Organize))
            &&& s[12] == (s[10].0 + "\\command"@, None::<Seq<char>>, menu_command_line(executable, DesktopCommand::NewCategory))
            &&& s[15] == (s[13].0 + "\\command"@, None::<Seq<char>>, menu_command_line(executable, DesktopCommand::Quit))
            &&& s[4].0 != s[7].0 && s[4].0 != s[10].0 && s[4].0 != s[13].0
            &&& s[7].0 != s[10].0 && s[7].0 != s[13].0 && s[10].0 != s[13].0
            &&& s[6].0 != s[9].0 && s[6].0 != s[12].0 && s[6].0 != s[15].0
            &&& s[9].0 != s[12].0 && s[9].0 != s[15].0 && s[12].0 != s[15].0
            &&& s[4].0 != s[0].0 && s[7].0 != s[0].0 && s[10].0 != s[0].0 && s[13].0 != s[0].0
        }),
{
    let s = context_menu_values_spec(executable);
    let shell = "HKCU\\Software\\Classes\\DesktopBackground\\Shell\\Qizhuo\\shell\\"@;
    reveal_strlit("HKCU\\Software\\Classes\\DesktopBackground\\Shell\\Qizhuo\\shell\\");
    reveal_strlit("HKCU\\Software\\Classes\\DesktopBackground\\Shell\\Qizhuo");
    reveal_strlit("\\shell\\");
    reveal_strlit("\\command");
    reveal_strlit("01Show");
    reveal_strlit("02Organize");
    reveal_strlit("03NewCategory");
    reveal_strlit("04Quit");
    assert(menu_root() + "\\shell\\"@ =~= shell);
    let n = shell.len() as int;
    let k = seq![shell + "01Show"@, shell + "02Organize"@, shell + "03NewCategory"@, shell + "04Quit"@];
    assert(k[0][n + 1] == '1' && k[1][n + 1] == '2' && k[2][n + 1] == '3' && k[3][n + 1] == '4');
    assert(menu_root().len() < n);
    assert((k[0] + "\\command"@)[n + 1] == '1');
    assert((k[1] + "\\command"@)[n + 1] == '2');
    assert((k[2] + "\\command"@)[n + 1] == '3');
    assert((k[3] + "\\command"@)[n + 1] == '4');
}

/// Started as the entry's command line splits into words (the program,
/// `--command`, the command's word), a second instance finds the entry's
/// command.
pub proof fn law_menu_command_line_parses(executable: Seq<char>, c: DesktopCommand)
    ensures
        command_argument_spec(seq![executable, "--command"@, c.word()]) == Some(c.word())
            || executable == "--command"@,
{
    let args = seq![executable, "--command"@, c.word()];
    if executable != "--command"@ {
        let t = args.drop_first();
        assert(t =~= seq!["--command"@, c.word()]);
        assert(t[0] == "--command"@);
        assert(t.len() == 2);
        assert(command_argument_spec(t) == Some(t[1]));
        assert(args[0] != "--command"@);
    }
}

} // verus!
