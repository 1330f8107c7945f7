//! Where the application keeps its files: everything lives in one data
//! directory, `Qizhuo` under the local application data folder.
//!
//! Paths are joined with the platform's main separator, which the caller
//! passes in (`std::path::MAIN_SEPARATOR`).

use vstd::prelude::*;
use crate::text::{
    join_path, join_path_spec, decimal, decimal_string, is_path_separator, is_plain_name,
    is_main_separator, is_bare_drive, lemma_decimal_digits, starts_verbatim, lemma_join_keeps_verbatim_start,
};

verus! {

/// Names placed side by side stay one component.
pub proof fn lemma_plain_name_concat(a: Seq<char>, b: Seq<char>)
    requires
        is_plain_name(a),
        is_plain_name(b),
    ensures
        is_plain_name(a + b),
{
    assert forall|i: int| 0 <= i < (a + b).len() implies #[trigger] (a + b)[i] != '/' && (a + b)[i] != '\\'
        && (a + b)[i] != ':' && (a + b)[i] != '?' by {
        if i < a.len() {
            assert((a + b)[i] == a[i]);
        } else {
            assert((a + b)[i] == b[i - a.len()]);
        }
    }
}

/// A fixed name made of letters, digits, `-` and `.` is one component.
proof fn lemma_plain_literal(name: Seq<char>)
    requires
        forall|i: int|
            0 <= i < name.len() ==> {
                let c = #[trigger] name[i];
                ('a' <= c <= 'z') || ('A' <= c <= 'Z') || ('0' <= c <= '9') || c == '-' || c == '.'
            },
    ensures
        is_plain_name(name),
{
    assert forall|i: int| 0 <= i < name.len() implies #[trigger] name[i] != '/' && name[i] != '\\'
        && name[i] != ':' && name[i] != '?' by {
        let c = name[i];
        assert(('a' <= c <= 'z') || ('A' <= c <= 'Z') || ('0' <= c <= '9') || c == '-' || c == '.');
    }
}

/// The data directory: `Qizhuo` under the local application data folder,
/// or under the temporary folder when that is not set.
pub open spec fn data_dir_spec(local_app_data: Option<Seq<char>>, temp_dir: Seq<char>, separator: char) -> Seq<char> {
    match local_app_data {
        Some(base) => join_path_spec(base, "Qizhuo"@, separator),
        None => join_path_spec(temp_dir, "Qizhuo"@, separator),
    }
}

/// The data directory, from the `LOCALAPPDATA` variable (if set) and the
/// temporary folder.
pub fn qizhuo_data_dir(local_app_data: Option<&str>, temp_dir: &str, separator: char) -> (r: String)
    requires
        is_main_separator(separator),
    ensures
        !starts_verbatim(
            match local_app_data {
                Some(s) => s@,
                None => temp_dir@,
            },
            separator,
        ) ==> r@ == data_dir_spec(
            match local_app_data {
                Some(s) => Some(s@),
                None => None,
            },
            temp_dir@,
            separator,
        ),
{
    proof {
        reveal_strlit("Qizhuo");
        lemma_plain_literal("Qizhuo"@);
    }
    match local_app_data {
        Some(base) => join_path(base, "Qizhuo", separator),
        None => join_path(temp_dir, "Qizhuo", separator),
    }
}

/// The file through which a second instance hands a command over.
pub open spec fn command_file_spec(data_dir: Seq<char>, separator: char) -> Seq<char> {
    join_path_spec(data_dir, "desktop-command.txt"@, separator)
}

/// The file through which a second instance hands a command over.
pub fn command_file(data_dir: &str, separator: char) -> (r: String)
    requires
        is_main_separator(separator),
    ensures
        !starts_verbatim(data_dir@, separator) ==> r@ == command_file_spec(data_dir@, separator),
        starts_verbatim(data_dir@, separator) ==> starts_verbatim(r@, separator),
{
    proof {
        reveal_strlit("desktop-command.txt");
        lemma_plain_literal("desktop-command.txt"@);
    }
    join_path(data_dir, "desktop-command.txt", separator)
}

/// The name of the file that a sender with process id `pid` writes first.
pub open spec fn temporary_name_spec(pid: nat) -> Seq<char> {
    "desktop-command-"@ + decimal(pid) + ".tmp"@
}

/// The file that a sender with process id `pid` writes first, before
/// renaming it to the command file.
pub open spec fn temporary_command_file_spec(data_dir: Seq<char>, pid: nat, separator: char) -> Seq<char> {
    join_path_spec(data_dir, temporary_name_spec(pid), separator)
}

/// The file that a sender with process id `pid` writes first.
pub fn temporary_command_file(data_dir: &str, pid: u32, separator: char) -> (r: String)
    requires
        is_main_separator(separator),
    ensures
        !starts_verbatim(data_dir@, separator) ==> r@ == temporary_command_file_spec(data_dir@, pid as nat, separator),
        starts_verbatim(data_dir@, separator) ==> starts_verbatim(r@, separator),
{
    let mut name = String::from_str("desktop-command-");
    let digits = decimal_string(pid);
    name.append(digits.as_str());
    name.append(".tmp");
    proof {
        reveal_strlit("desktop-command-");
        reveal_strlit(".tmp");
        lemma_plain_literal("desktop-command-"@);
        lemma_plain_literal(".tmp"@);
        lemma_decimal_digits(pid as nat);
        lemma_plain_literal(decimal(pid as nat));
        lemma_plain_name_concat("desktop-command-"@, decimal(pid as nat));
        lemma_plain_name_concat("desktop-command-"@ + decimal(pid as nat), ".tmp"@);
    }
    join_path(data_dir, name.as_str(), separator)
}

/// Joining under one base keeps different names apart.
pub proof fn lemma_join_path_injective(base: Seq<char>, a: Seq<char>, b: Seq<char>, separator: char)
    requires
        a != b,
    ensures
        join_path_spec(base, a, separator) != join_path_spec(base, b, separator),
{
    let ja = join_path_spec(base, a, separator);
    let jb = join_path_spec(base, b, separator);
    let p = if base.len() == 0 || is_path_separator(base.last(), separator) || is_bare_drive(base, separator) {
        base
    } else {
        base + seq![separator]
    };
    assert(ja =~= p + a);
    assert(jb =~= p + b);
    if ja == jb {
        assert(a =~= ja.skip(p.len() as int));
        assert(b =~= jb.skip(p.len() as int));
    }
}

/// A sender's temporary file is never the command file itself, so the
/// rename that publishes a command always moves a file.
pub proof fn law_temporary_file_is_not_command_file(data_dir: Seq<char>, pid: nat, separator: char)
    ensures
        temporary_command_file_spec(data_dir, pid, separator) != command_file_spec(data_dir, separator),
{
    reveal_strlit("desktop-command-");
    reveal_strlit("desktop-command.txt");
    let t = temporary_name_spec(pid);
    let c = "desktop-command.txt"@;
    assert(t[15] == '-');
    assert(c[15] == '.');
    lemma_join_path_injective(data_dir, t, c, separator);
}

/// The root of the managed store.
pub open spec fn store_root_spec(data_dir: Seq<char>, separator: char) -> Seq<char> {
    join_path_spec(data_dir, "Shortcuts"@, separator)
}

/// The two folders of the managed store: one for the user's desktop, one
/// for the desktop that all users share.
pub open spec fn managed_store_folders_spec(data_dir: Seq<char>, separator: char) -> Seq<Seq<char>> {
    let root = store_root_spec(data_dir, separator);
    seq![join_path_spec(root, "User"@, separator), join_path_spec(root, "Common"@, separator)]
}

/// The two folders of the managed store.
pub fn managed_store_folders(data_dir: &str, separator: char) -> (r: Vec<String>)
    requires
        is_main_separator(separator),
    ensures
        r@.len() == 2,
        !starts_verbatim(data_dir@, separator) ==> r@.map_values(|s: String| s@) == managed_store_folders_spec(
            data_dir@,
            separator,
        ),
{
    proof {
        reveal_strlit("Shortcuts");
        reveal_strlit("User");
        reveal_strlit("Common");
        lemma_plain_literal("Shortcuts"@);
        lemma_plain_literal("User"@);
        lemma_plain_literal("Common"@);
    }
    let root = join_path(data_dir, "Shortcuts", separator);
    let user = join_path(root.as_str(), "User", separator);
    let common = join_path(root.as_str(), "Common", separator);
    let r = vec![user, common];
    proof {
        if !starts_verbatim(data_dir@, separator) {
            lemma_join_keeps_verbatim_start(data_dir@, "Shortcuts"@, separator);
            assert(r@.map_values(|s: String| s@) =~= managed_store_folders_spec(data_dir@, separator));
        }
    }
    r
}

/// Where a helper script named `name` is written in the data directory.
pub open spec fn helper_path_spec(data_dir: Seq<char>, name: Seq<char>, separator: char) -> Seq<char> {
    join_path_spec(data_dir, name, separator)
}

/// Where the helper script that restores the shared desktop is written.
pub fn elevated_helper_path(data_dir: &str, separator: char) -> (r: String)
    requires
        is_main_separator(separator),
    ensures
        !starts_verbatim(data_dir@, separator) ==> r@ == helper_path_spec(data_dir@, "restore-common-desktop.ps1"@, separator),
{
    proof {
        reveal_strlit("restore-common-desktop.ps1");
        lemma_plain_literal("restore-common-desktop.ps1"@);
    }
    join_path(data_dir, "restore-common-desktop.ps1", separator)
}

/// Where the watchdog script is written.
pub fn watchdog_helper_path(data_dir: &str, separator: char) -> (r: String)
    requires
        is_main_separator(separator),
    ensures
        !starts_verbatim(data_dir@, separator) ==> r@ == helper_path_spec(data_dir@, "restore-watchdog.ps1"@, separator),
{
    proof {
        reveal_strlit("restore-watchdog.ps1");
        lemma_plain_literal("restore-watchdog.ps1"@);
    }
    join_path(data_dir, "restore-watchdog.ps1", separator)
}

/// The command file lies directly in the data directory under the name
/// `desktop-command.txt`: the path is the data directory, then nothing (after
/// an empty directory, one ending in a separator, or a bare drive) or the
/// platform's separator, then the name; and both sides of the handoff,
/// given the same data directory and separator, get the same path.
pub proof fn law_command_file_in_data_dir(data_dir: Seq<char>, separator: char)
    requires
        is_main_separator(separator),
    ensures
        exists|mid: Seq<char>|
            #![trigger data_dir + mid]
            command_file_spec(data_dir, separator) == data_dir + mid + "desktop-command.txt"@ && (mid
                == Seq::<char>::empty() || mid == seq![separator]) && (mid == Seq::<char>::empty() <==> (
            data_dir.len() == 0 || is_path_separator(data_dir.last(), separator) || is_bare_drive(
                data_dir,
                separator,
            ))),
{
    let name = "desktop-command.txt"@;
    if data_dir.len() == 0 || is_path_separator(data_dir.last(), separator) || is_bare_drive(data_dir, separator) {
        let mid = Seq::<char>::empty();
        assert(data_dir + mid =~= data_dir);
        assert(command_file_spec(data_dir, separator) == data_dir + mid + name);
    } else {
        let mid = seq![separator];
        assert(mid.len() == 1);
        assert(command_file_spec(data_dir, separator) == data_dir + mid + name);
    }
}

} // verus!
