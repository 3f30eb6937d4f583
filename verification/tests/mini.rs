use apocalypse::ClosingStep;
use apocalypse::MiniHell;

#[test]
fn messages_are_handled_in_acceptance_order() {
    let mut mini = MiniHell::new();
    let sent: Vec<u64> = vec![11, 22, 33, 44, 55];
    for &t in &sent {
        mini.accept_message(t);
    }
    let mut handled = Vec::new();
    while let Some(t) = mini.start_handle() {
        handled.push(t);
        mini.finish_handle();
    }
    assert_eq!(handled, sent);
}

#[test]
fn interleaved_accepts_keep_order() {
    let mut mini = MiniHell::new();
    mini.accept_message(1);
    mini.accept_message(2);
    assert_eq!(mini.start_handle(), Some(1));
    mini.finish_handle();
    mini.accept_message(3);
    assert_eq!(mini.start_handle(), Some(2));
    mini.finish_handle();
    assert_eq!(mini.start_handle(), Some(3));
    mini.finish_handle();
    assert_eq!(mini.start_handle(), None);
}

#[test]
fn graceful_shutdown_runs_vanquish_before_confirm() {
    let mut mini = MiniHell::new();
    mini.shutdown(true);
    let plan = mini.closing_plan();
    assert_eq!(plan, vec![ClosingStep::RunVanquish, ClosingStep::SendConfirm]);
}

#[test]
fn graceful_shutdown_without_confirm_still_runs_vanquish() {
    let mut mini = MiniHell::new();
    mini.shutdown(false);
    assert_eq!(mini.closing_plan(), vec![ClosingStep::RunVanquish]);
}

#[test]
fn killswitch_skips_the_vanquish_hook() {
    let mut mini = MiniHell::new();
    mini.accept_message(9);
    assert_eq!(mini.start_handle(), Some(9));
    // the killswitch fires while the handle call is in flight
    mini.killswitch(true);
    let plan = mini.closing_plan();
    assert!(!plan.contains(&ClosingStep::RunVanquish));
    assert_eq!(plan, vec![ClosingStep::SendConfirm]);
}

#[test]
fn killswitch_without_confirm_does_nothing_after_the_loop() {
    let mut mini = MiniHell::new();
    mini.killswitch(false);
    assert!(mini.closing_plan().is_empty());
}

#[test]
fn empty_mailbox_has_nothing_to_handle() {
    let mut mini = MiniHell::new();
    assert_eq!(mini.start_handle(), None);
}
