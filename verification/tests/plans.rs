use qizhuo::desktop::{
    choose_open_action, exe_extension, open_item, require_existing, scan_args, scan_outcome,
    selected_verb, DesktopApp, ItemError, OpenAction, SCAN_SCRIPT,
};
use qizhuo::paths::{command_file, managed_store_folders, qizhuo_data_dir, temporary_command_file};
use qizhuo::powershell::{elevated_launcher, hidden_command_args, watchdog_args};
use qizhuo::registry::{context_menu_values, register_desktop_context_menu, registry_add_args};
use qizhuo::restore::{
    restore_common_shortcuts_elevated, restore_script_args, start_restore_watchdog, HelperAction,
    RESTORE_COMMON_SCRIPT, RESTORE_SCRIPT, WATCHDOG_SCRIPT,
};
use qizhuo::text::{decimal_string, escape_single_quotes, join_path, trim_whitespace};

#[test]
fn trims_unicode_whitespace() {
    assert_eq!(trim_whitespace(" \t a b \n"), "a b");
    assert_eq!(trim_whitespace("\u{2003}x\u{2029}"), "x");
    assert_eq!(trim_whitespace("   "), "");
    assert_eq!(trim_whitespace(""), "");
}

#[test]
fn escapes_quotes() {
    assert_eq!(escape_single_quotes("it's"), "it''s");
    assert_eq!(escape_single_quotes("''"), "''''");
    assert_eq!(escape_single_quotes("plain"), "plain");
}

#[test]
fn joins_paths() {
    assert_eq!(join_path("C:\\Users\\a", "Qizhuo", '\\'), "C:\\Users\\a\\Qizhuo");
    assert_eq!(join_path("C:\\", "Qizhuo", '\\'), "C:\\Qizhuo");
    assert_eq!(join_path("C:\\x/", "Qizhuo", '\\'), "C:\\x/Qizhuo");
    assert_eq!(join_path("C:", "Qizhuo", '\\'), "C:Qizhuo");
    assert_eq!(join_path("/tmp/", "Qizhuo", '/'), "/tmp/Qizhuo");
    assert_eq!(join_path("/tmp", "Qizhuo", '/'), "/tmp/Qizhuo");
    assert_eq!(join_path("/tmp\\", "Qizhuo", '/'), "/tmp\\/Qizhuo");
    assert_eq!(join_path("C:", "Qizhuo", '/'), "C:/Qizhuo");
    assert_eq!(join_path("", "Qizhuo", '\\'), "Qizhuo");
    let verbatim = join_path("\\\\?\\C:\\L", "Qizhuo", '\\');
    assert!(verbatim.starts_with("\\\\?\\C:\\L"));
    assert!(verbatim.ends_with("Qizhuo"));
}

#[test]
fn renders_decimals() {
    assert_eq!(decimal_string(0), "0");
    assert_eq!(decimal_string(7), "7");
    assert_eq!(decimal_string(10), "10");
    assert_eq!(decimal_string(4096), "4096");
    assert_eq!(decimal_string(u32::MAX), "4294967295");
}

#[test]
fn data_directory() {
    assert_eq!(
        qizhuo_data_dir(Some("C:\\Users\\a\\AppData\\Local"), "C:\\Temp", '\\'),
        "C:\\Users\\a\\AppData\\Local\\Qizhuo"
    );
    assert_eq!(qizhuo_data_dir(None, "C:\\Temp", '\\'), "C:\\Temp\\Qizhuo");
    assert_eq!(qizhuo_data_dir(None, "/tmp", '/'), "/tmp/Qizhuo");
}

#[test]
fn command_files() {
    assert_eq!(command_file("D:\\Qizhuo", '\\'), "D:\\Qizhuo\\desktop-command.txt");
    assert_eq!(
        temporary_command_file("D:\\Qizhuo", 4242, '\\'),
        "D:\\Qizhuo\\desktop-command-4242.tmp"
    );
    assert_ne!(temporary_command_file("D:\\Qizhuo", 0, '\\'), command_file("D:\\Qizhuo", '\\'));
    assert_eq!(
        managed_store_folders("D:\\Qizhuo", '\\'),
        vec!["D:\\Qizhuo\\Shortcuts\\User".to_string(), "D:\\Qizhuo\\Shortcuts\\Common".to_string()]
    );
    assert_eq!(command_file("/tmp/Qizhuo", '/'), "/tmp/Qizhuo/desktop-command.txt");
    assert_eq!(
        managed_store_folders("/tmp/Qizhuo", '/'),
        vec!["/tmp/Qizhuo/Shortcuts/User".to_string(), "/tmp/Qizhuo/Shortcuts/Common".to_string()]
    );
}

#[test]
fn powershell_arguments() {
    assert_eq!(
        hidden_command_args("Get-Date"),
        vec!["-NoProfile", "-NonInteractive", "-WindowStyle", "Hidden", "-Command", "Get-Date"]
    );
    assert_eq!(
        watchdog_args("D:\\Qizhuo\\restore-watchdog.ps1", 77),
        vec![
            "-NoProfile",
            "-NonInteractive",
            "-ExecutionPolicy",
            "Bypass",
            "-WindowStyle",
            "Hidden",
            "-File",
            "D:\\Qizhuo\\restore-watchdog.ps1",
            "77"
        ]
    );
    assert_eq!(restore_script_args()[5], RESTORE_SCRIPT);
    assert_eq!(scan_args()[5], SCAN_SCRIPT);
    assert!(SCAN_SCRIPT.contains("ConvertTo-Json -InputObject @($items) -Compress"));
}

#[test]
fn launcher_doubles_quotes_of_helper() {
    assert_eq!(
        elevated_launcher("C:\\Users\\O'Neil\\h.ps1"),
        "$p=Start-Process -FilePath 'powershell.exe' -Verb RunAs -WindowStyle Hidden -ArgumentList '-NoProfile -ExecutionPolicy Bypass -File \"C:\\Users\\O''Neil\\h.ps1\"' -Wait -PassThru; exit $p.ExitCode"
    );
}

#[test]
fn elevated_restore_plan() {
    let (plan, runner, action) = restore_common_shortcuts_elevated("D:\\Qizhuo", '\\');
    assert!(runner.waits());
    assert_eq!(action, HelperAction::CreateDirectory);
    assert_eq!(plan.helper_path, "D:\\Qizhuo\\restore-common-desktop.ps1");
    assert_eq!(plan.script, RESTORE_COMMON_SCRIPT);
    assert_eq!(plan.arguments.len(), 6);
    assert_eq!(plan.arguments[4], "-Command");
    assert_eq!(plan.arguments[5], elevated_launcher("D:\\Qizhuo\\restore-common-desktop.ps1"));
}

#[test]
fn watchdog_plan() {
    let (plan, mut runner, action) = start_restore_watchdog("D:\\Qizhuo", 1234, '\\');
    assert!(!runner.waits());
    assert_eq!(action, HelperAction::CreateDirectory);
    assert_eq!(runner.advance(false), HelperAction::Finish(false));
    assert_eq!(plan.helper_path, "D:\\Qizhuo\\restore-watchdog.ps1");
    assert_eq!(plan.script, WATCHDOG_SCRIPT);
    assert_eq!(plan.arguments[7], "D:\\Qizhuo\\restore-watchdog.ps1");
    assert_eq!(plan.arguments[8], "1234");
}

#[test]
fn registry_arguments() {
    assert_eq!(
        registry_add_args("HKCU\\X", Some("Icon"), "a,0"),
        vec!["add", "HKCU\\X", "/v", "Icon", "/t", "REG_SZ", "/d", "a,0", "/f"]
    );
    assert_eq!(
        registry_add_args("HKCU\\X\\command", None, "run"),
        vec!["add", "HKCU\\X\\command", "/ve", "/t", "REG_SZ", "/d", "run", "/f"]
    );
}

#[test]
fn context_menu_registration() {
    let exe = "C:\\Program Files\\Qizhuo\\qizhuo.exe";
    let values = context_menu_values(exe);
    assert_eq!(values.len(), 16);
    let root = "HKCU\\Software\\Classes\\DesktopBackground\\Shell\\Qizhuo";
    assert_eq!(values[0].key, root);
    assert_eq!(values[0].name.as_deref(), Some("MUIVerb"));
    assert_eq!(values[0].value, "栖桌");
    assert_eq!(values[1].value, "C:\\Program Files\\Qizhuo\\qizhuo.exe,0");
    assert_eq!(values[2].value, "Top");
    assert_eq!(values[3].name.as_deref(), Some("SubCommands"));
    assert_eq!(values[3].value, "");
    assert_eq!(values[4].key, format!("{}\\shell\\01Show", root));
    assert_eq!(values[4].value, "显示栖桌");
    assert_eq!(values[6].key, format!("{}\\shell\\01Show\\command", root));
    assert_eq!(values[6].name, None);
    assert_eq!(values[6].value, "\"C:\\Program Files\\Qizhuo\\qizhuo.exe\" --command show");
    assert_eq!(values[9].value, "\"C:\\Program Files\\Qizhuo\\qizhuo.exe\" --command organize");
    assert_eq!(values[10].key, format!("{}\\shell\\03NewCategory", root));
    assert_eq!(values[10].value, "新增分类");
    assert_eq!(values[12].value, "\"C:\\Program Files\\Qizhuo\\qizhuo.exe\" --command new-category");
    assert_eq!(values[13].value, "退出栖桌");
    assert_eq!(values[15].value, "\"C:\\Program Files\\Qizhuo\\qizhuo.exe\" --command quit");
    let calls = register_desktop_context_menu(exe);
    assert_eq!(calls.len(), 16);
    assert_eq!(
        calls[15],
        vec![
            "add".to_string(),
            format!("{}\\shell\\04Quit\\command", root),
            "/ve".to_string(),
            "/t".to_string(),
            "REG_SZ".to_string(),
            "/d".to_string(),
            "\"C:\\Program Files\\Qizhuo\\qizhuo.exe\" --command quit".to_string(),
            "/f".to_string(),
        ]
    );
}

#[test]
fn exe_extension_any_case() {
    assert!(exe_extension("exe"));
    assert!(exe_extension("EXE"));
    assert!(exe_extension("eXe"));
    assert!(!exe_extension("exe "));
    assert!(!exe_extension("ex"));
    assert!(!exe_extension("lnk"));
}

#[test]
fn open_actions() {
    assert_eq!(choose_open_action(false, true, Some("exe")), Err(ItemError::Missing));
    assert_eq!(choose_open_action(true, true, Some("Exe")), Ok(OpenAction::Launch));
    assert_eq!(choose_open_action(true, false, Some("exe")), Ok(OpenAction::Explore));
    assert_eq!(choose_open_action(true, true, Some("txt")), Ok(OpenAction::Explore));
    assert_eq!(choose_open_action(true, true, None), Ok(OpenAction::Explore));
}

#[test]
fn open_item_reads_the_extension() {
    assert_eq!(open_item("C:/Tools/app.EXE", true, true), Ok(OpenAction::Launch));
    assert_eq!(open_item("C:/Tools/app.exe.txt", true, true), Ok(OpenAction::Explore));
    assert_eq!(open_item("C:/Tools/exe", true, true), Ok(OpenAction::Explore));
    assert_eq!(open_item("C:/Tools/folder.exe", true, false), Ok(OpenAction::Explore));
    assert_eq!(open_item("C:/Tools/gone.exe", false, true), Err(ItemError::Missing));
    assert_eq!(open_item("tool.ExE", true, true), Ok(OpenAction::Launch));
    assert_eq!(open_item("C:\\Apps\\Tool.EXE", true, true), Ok(OpenAction::Launch));
    assert_eq!(open_item("C:\\b.exe.", true, true), Ok(OpenAction::Explore));
    assert_eq!(open_item("\\\\server\\apps\\tool.exe", true, true), Ok(OpenAction::Launch));
    assert_eq!(open_item("/x/.exe", true, true), Ok(OpenAction::Explore));
    assert_eq!(open_item("C:\\Apps\\Tool.EXE", true, false), Ok(OpenAction::Explore));
}

#[test]
fn item_error_messages() {
    assert_eq!(ItemError::Missing.message(), "项目已不存在");
    assert_eq!(ItemError::MainWindowNotFound.message(), "找不到主窗口");
    assert_eq!(ItemError::MenuThreadFailed.message(), "系统菜单线程异常");
    assert_eq!(ItemError::Unsupported.message(), "当前系统不支持 Windows 右键菜单");
    assert_eq!(ItemError::ShellInitFailed.message(), "无法初始化 Windows Shell");
    assert_eq!(require_existing(true), Ok(()));
    assert_eq!(require_existing(false), Err(ItemError::Missing));
}

#[test]
fn verb_of_selected_entry() {
    assert_eq!(selected_verb(0), None);
    assert_eq!(selected_verb(-1), None);
    assert_eq!(selected_verb(1), Some(0));
    assert_eq!(selected_verb(7), Some(6));
}

fn app(name: &str) -> DesktopApp {
    DesktopApp {
        name: name.to_string(),
        target: format!("C:\\{}.exe", name),
        source: format!("C:\\{}.lnk", name),
        icon: String::new(),
        kind: "app".to_string(),
    }
}

#[test]
fn scan_outcomes() {
    assert_eq!(scan_outcome(true, Some(vec![app("a"), app("b")])).len(), 2);
    assert_eq!(scan_outcome(true, Some(vec![app("a")]))[0].name, "a");
    assert!(scan_outcome(false, Some(vec![app("a")])).is_empty());
    assert!(scan_outcome(true, None).is_empty());
}
