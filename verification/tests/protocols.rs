use qizhuo::handoff::{CommandSender, SendAction, SendPhase, POLL_LIMIT};
use qizhuo::interaction::InteractionWatch;
use qizhuo::restore::{
    managed_store_is_empty, FolderListing, HelperAction, HelperRunner, RestoreAction,
    RestorePhase, ShortcutRestorer,
};

#[test]
fn sender_succeeds_when_command_taken() {
    let (mut s, a) = CommandSender::new();
    assert_eq!(a, SendAction::CreateDirectory);
    assert_eq!(s.advance(true), SendAction::WriteTemporary);
    assert_eq!(s.advance(true), SendAction::PublishCommand);
    assert_eq!(s.advance(true), SendAction::Poll);
    assert_eq!(s.advance(true), SendAction::Poll);
    assert_eq!(s.advance(false), SendAction::Finish(true));
    assert_eq!(s.phase(), SendPhase::Done(true));
    assert_eq!(s.advance(true), SendAction::Finish(true));
}

#[test]
fn sender_gives_up_after_twelve_looks() {
    let (mut s, _) = CommandSender::new();
    s.advance(true);
    s.advance(true);
    assert_eq!(s.advance(true), SendAction::Poll);
    let mut polls: u32 = 1;
    loop {
        match s.advance(true) {
            SendAction::Poll => polls += 1,
            SendAction::RemoveCommandFile => break,
            other => panic!("unexpected {:?}", other),
        }
    }
    assert_eq!(polls, POLL_LIMIT as u32);
    assert_eq!(s.advance(true), SendAction::Finish(false));
}

#[test]
fn sender_failures() {
    let (mut s, _) = CommandSender::new();
    assert_eq!(s.advance(false), SendAction::Finish(false));
    let (mut s, _) = CommandSender::new();
    s.advance(true);
    assert_eq!(s.advance(false), SendAction::Finish(false));
    let (mut s, _) = CommandSender::new();
    s.advance(true);
    s.advance(true);
    assert_eq!(s.advance(false), SendAction::RemoveTemporary);
    assert_eq!(s.advance(true), SendAction::Finish(false));
}

#[test]
fn sender_ends_within_sixteen_reports() {
    let (mut s, _) = CommandSender::new();
    let mut last = SendAction::CreateDirectory;
    for _ in 0..16 {
        last = s.advance(true);
    }
    assert_eq!(last, SendAction::Finish(false));
}

#[test]
fn watch_switches_after_three_samples() {
    let mut w = InteractionWatch::new();
    assert_eq!(w.observe(false), None);
    assert_eq!(w.observe(false), None);
    assert_eq!(w.observe(false), Some(true));
    assert!(w.ignored);
    assert_eq!(w.observe(false), None);
    assert_eq!(w.observe(true), None);
    assert_eq!(w.observe(false), None);
    assert_eq!(w.observe(true), None);
    assert_eq!(w.observe(true), None);
    assert!(w.ignored);
    assert_eq!(w.observe(true), Some(false));
    assert!(!w.ignored);
}

#[test]
fn watch_stays_put_while_inside() {
    let mut w = InteractionWatch::new();
    for _ in 0..10 {
        assert_eq!(w.observe(true), None);
    }
    assert!(!w.ignored);
}

#[test]
fn watch_counter_saturates() {
    let mut w = InteractionWatch::new();
    for _ in 0..300 {
        w.observe(true);
    }
    assert_eq!(w.stable_samples, 255);
    assert!(!w.candidate);
}

#[test]
fn store_emptiness() {
    assert!(managed_store_is_empty(&vec![FolderListing::Empty, FolderListing::Unreadable]));
    assert!(managed_store_is_empty(&vec![]));
    assert!(!managed_store_is_empty(&vec![FolderListing::Empty, FolderListing::HasEntries]));
}

#[test]
fn restorer_skips_elevation_when_empty() {
    let (mut r, a) = ShortcutRestorer::new();
    assert_eq!(a, RestoreAction::RunRestoreScript);
    assert_eq!(r.advance(false), RestoreAction::CheckStore);
    assert_eq!(r.advance(true), RestoreAction::CheckStore);
    assert_eq!(r.advance(true), RestoreAction::Finish(true));
    assert_eq!(r.phase(), RestorePhase::Done(true));
}

#[test]
fn restorer_elevates_when_items_remain() {
    let (mut r, _) = ShortcutRestorer::new();
    r.advance(true);
    assert_eq!(r.advance(false), RestoreAction::RunElevatedRestore);
    assert_eq!(r.advance(false), RestoreAction::CheckStore);
    assert_eq!(r.advance(false), RestoreAction::Finish(false));
}

#[test]
fn waited_helper_removes_its_script() {
    let (mut h, a) = HelperRunner::new(true);
    assert_eq!(a, HelperAction::CreateDirectory);
    assert_eq!(h.advance(true), HelperAction::WriteScript);
    assert_eq!(h.advance(true), HelperAction::RunScript);
    assert_eq!(h.advance(true), HelperAction::RemoveScript);
    assert_eq!(h.advance(false), HelperAction::Finish(true));
    let (mut h, _) = HelperRunner::new(true);
    h.advance(true);
    h.advance(true);
    assert_eq!(h.advance(false), HelperAction::RemoveScript);
    assert_eq!(h.advance(true), HelperAction::Finish(false));
}

#[test]
fn started_helper_keeps_its_script() {
    let (mut h, _) = HelperRunner::new(false);
    h.advance(true);
    h.advance(true);
    assert_eq!(h.advance(true), HelperAction::Finish(true));
}

#[test]
fn helper_stops_before_running_on_failure() {
    let (mut h, _) = HelperRunner::new(true);
    assert_eq!(h.advance(false), HelperAction::Finish(false));
    let (mut h, _) = HelperRunner::new(true);
    h.advance(true);
    assert_eq!(h.advance(false), HelperAction::Finish(false));
}

#[test]
fn sender_phase_is_readable() {
    let (s, _) = CommandSender::new();
    assert_eq!(s.phase(), SendPhase::Creating);
}
