use qizhuo::command::{
    after_restore, command_argument, command_reaction, decode_command, finishes_after_send,
    listener_step, tray_click_reaction, tray_menu_reaction, AfterRestore, DesktopCommand,
    ListenerStep, Reaction, UiEvent,
};

#[test]
fn decodes_each_command_word() {
    assert_eq!(decode_command("show"), Some(DesktopCommand::Show));
    assert_eq!(decode_command("organize"), Some(DesktopCommand::Organize));
    assert_eq!(decode_command("new-category"), Some(DesktopCommand::NewCategory));
    assert_eq!(decode_command("quit"), Some(DesktopCommand::Quit));
}

#[test]
fn decoding_ignores_surrounding_whitespace() {
    assert_eq!(decode_command("  show\r\n"), Some(DesktopCommand::Show));
    assert_eq!(decode_command("\tquit "), Some(DesktopCommand::Quit));
    assert_eq!(decode_command("\u{3000}organize\u{a0}"), Some(DesktopCommand::Organize));
}

#[test]
fn decoding_refuses_other_text() {
    assert_eq!(decode_command(""), None);
    assert_eq!(decode_command("Show"), None);
    assert_eq!(decode_command("sh ow"), None);
    assert_eq!(decode_command("quit now"), None);
}

#[test]
fn command_names_round_trip() {
    for c in [
        DesktopCommand::Show,
        DesktopCommand::Organize,
        DesktopCommand::NewCategory,
        DesktopCommand::Quit,
    ] {
        assert_eq!(decode_command(&c.name()), Some(c));
    }
    assert_eq!(DesktopCommand::NewCategory.name(), "new-category");
}

#[test]
fn listener_reacts_to_commands() {
    assert_eq!(listener_step(None), ListenerStep::Wait);
    assert_eq!(listener_step(Some("show\n")), ListenerStep::Consume(Reaction::ShowWindow));
    assert_eq!(
        listener_step(Some("organize")),
        ListenerStep::Consume(Reaction::ShowAndEmit { event: UiEvent::OrganizeNow, to_window: false })
    );
    assert_eq!(
        listener_step(Some("new-category")),
        ListenerStep::Consume(Reaction::ShowAndEmit { event: UiEvent::AddCategoryRequest, to_window: false })
    );
    assert_eq!(listener_step(Some("quit")), ListenerStep::Consume(Reaction::AttemptQuit));
    assert_eq!(listener_step(Some("bogus")), ListenerStep::Consume(Reaction::Ignore));
    assert_eq!(command_reaction(None), Reaction::Ignore);
}

#[test]
fn event_names() {
    assert_eq!(UiEvent::OrganizeNow.name(), "organize-now");
    assert_eq!(UiEvent::AddCategoryRequest.name(), "add-category-request");
    assert_eq!(UiEvent::RestoreFailed.name(), "restore-failed");
}

#[test]
fn quitting_exits_only_after_restore() {
    assert_eq!(after_restore(true), AfterRestore::Exit);
    assert_eq!(after_restore(false), AfterRestore::ReportFailure);
}

#[test]
fn tray_menu_reactions() {
    assert_eq!(tray_menu_reaction("show"), Reaction::ShowWindow);
    assert_eq!(
        tray_menu_reaction("organize"),
        Reaction::ShowAndEmit { event: UiEvent::OrganizeNow, to_window: true }
    );
    assert_eq!(tray_menu_reaction("quit"), Reaction::AttemptQuit);
    assert_eq!(tray_menu_reaction("pause"), Reaction::Ignore);
    assert_eq!(tray_menu_reaction(" show"), Reaction::Ignore);
    assert_eq!(tray_click_reaction(true, true), Reaction::ShowWindow);
    assert_eq!(tray_click_reaction(true, false), Reaction::Ignore);
    assert_eq!(tray_click_reaction(false, true), Reaction::Ignore);
}

fn strings(v: &[&str]) -> Vec<String> {
    v.iter().map(|s| s.to_string()).collect()
}

#[test]
fn command_argument_after_flag() {
    assert_eq!(
        command_argument(&strings(&["qizhuo.exe", "--command", "organize"])),
        Some("organize".to_string())
    );
    assert_eq!(
        command_argument(&strings(&["qizhuo.exe", "--command", "show", "--command", "quit"])),
        Some("show".to_string())
    );
    assert_eq!(command_argument(&strings(&["qizhuo.exe", "--command"])), None);
    assert_eq!(command_argument(&strings(&["qizhuo.exe", "show"])), None);
    assert_eq!(command_argument(&strings(&[])), None);
}

#[test]
fn second_instance_finishes() {
    assert!(finishes_after_send(true, "show"));
    assert!(finishes_after_send(false, "quit"));
    assert!(!finishes_after_send(false, "show"));
    assert!(!finishes_after_send(false, " quit"));
}
