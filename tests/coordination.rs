use schedulatte::control::{
    handle_message, is_dark_theme, menu_lines, status_line, tray_icon_file, window_line,
    TrayMessage, EXIT_COMMAND_ID,
};
use schedulatte::clock::TimeOfDay;
use schedulatte::schedule::{Schedule, TimeWindow};
use schedulatte::scheduler::{on_wake, Cadence, LoopStep, Wake, CHECK_PERIOD_MS, POLL_PERIOD_MS};
use schedulatte::shared::ReconciliationState;
use schedulatte::shutdown::{FinalStep, ShutdownCoordinator, Trigger};

fn window(h1: u32, m1: u32, h2: u32, m2: u32) -> TimeWindow {
    TimeWindow::new(TimeOfDay::from_hm(h1, m1), TimeOfDay::from_hm(h2, m2))
}

#[test]
fn exit_command_sets_the_flag_only() {
    let mut st = ReconciliationState::new();
    st.install_schedule(Schedule::two(window(8, 0, 12, 0), window(13, 0, 17, 0)));
    let r = handle_message(&mut st, TrayMessage::Command { wparam: 5 });
    assert!(!r.post_quit && r.default_handling);
    assert!(!st.is_shutdown_requested());
    let r = handle_message(&mut st, TrayMessage::Command { wparam: 0x7_0000 + EXIT_COMMAND_ID });
    assert!(r.post_quit && r.default_handling && !r.show_menu);
    assert!(st.is_shutdown_requested());
    assert!(st.schedule().is_some());
    handle_message(&mut st, TrayMessage::Other);
    assert!(st.is_shutdown_requested());
}

#[test]
fn other_messages() {
    let mut st = ReconciliationState::new();
    let r = handle_message(&mut st, TrayMessage::Notify { right_button_up: true });
    assert!(r.show_menu && !r.post_quit && r.default_handling);
    let r = handle_message(&mut st, TrayMessage::Notify { right_button_up: false });
    assert!(!r.show_menu);
    let r = handle_message(&mut st, TrayMessage::Destroy);
    assert!(r.post_quit && !r.default_handling);
    let r = handle_message(&mut st, TrayMessage::Other);
    assert!(!r.post_quit && r.default_handling && !r.show_menu);
    assert!(!st.is_shutdown_requested());
}

#[test]
fn menu_text() {
    assert_eq!(window_line("Morning", &window(8, 0, 12, 5)), "Morning: 08:00 - 12:05");
    assert_eq!(status_line(true), "Caffeine: Active");
    assert_eq!(status_line(false), "Caffeine: Inactive");
    let sch = Some(Schedule::two(window(8, 0, 12, 0), window(13, 30, 17, 0)));
    assert_eq!(
        menu_lines(&sch, false),
        vec![
            "Morning: 08:00 - 12:00".to_string(),
            "Afternoon: 13:30 - 17:00".to_string(),
            "Caffeine: Inactive".to_string()
        ]
    );
    assert!(menu_lines(&None, true).is_empty());
}

#[test]
fn theme_and_icon() {
    assert!(is_dark_theme(true, true, 0));
    assert!(!is_dark_theme(true, true, 1));
    assert!(!is_dark_theme(false, true, 0));
    assert!(!is_dark_theme(true, false, 0));
    assert_eq!(tray_icon_file(true), "tray_dark.ico");
    assert_eq!(tray_icon_file(false), "tray_light.ico");
}

#[test]
fn first_trigger_wins() {
    let mut c = ShutdownCoordinator::new();
    assert_eq!(c.on_trigger(Trigger::Interrupt, true), FinalStep::StopHelper);
    assert_eq!(c.on_trigger(Trigger::Flag, true), FinalStep::AlreadyDone);
    assert_eq!(c.on_trigger(Trigger::Interrupt, true), FinalStep::AlreadyDone);
    assert_eq!(c.cause, Some(Trigger::Interrupt));
    let mut d = ShutdownCoordinator::new();
    assert_eq!(d.on_trigger(Trigger::Flag, false), FinalStep::Exit);
    assert_eq!(d.on_trigger(Trigger::Interrupt, true), FinalStep::AlreadyDone);
}

#[test]
fn both_triggers_issue_at_most_one_stop() {
    let mut c = ShutdownCoordinator::new();
    let steps = [
        c.on_trigger(Trigger::Flag, true),
        c.on_trigger(Trigger::Interrupt, true),
        c.on_trigger(Trigger::Flag, true),
    ];
    assert_eq!(steps.iter().filter(|s| **s == FinalStep::StopHelper).count(), 1);
}

#[test]
fn loop_decisions() {
    assert_eq!(on_wake(Wake::CheckTimer, false), LoopStep::Reconcile);
    assert_eq!(on_wake(Wake::CheckTimer, true), LoopStep::Shutdown(Trigger::Flag));
    assert_eq!(on_wake(Wake::ExitPoll, false), LoopStep::Wait);
    assert_eq!(on_wake(Wake::ExitPoll, true), LoopStep::Shutdown(Trigger::Flag));
    assert_eq!(on_wake(Wake::Interrupt, false), LoopStep::Shutdown(Trigger::Interrupt));
}

#[test]
fn flag_seen_within_one_poll_period() {
    let mut c = Cadence::new(0, CHECK_PERIOD_MS, POLL_PERIOD_MS);
    let set_at: u64 = 12_345;
    let mut flag = false;
    loop {
        if !flag && c.next_poll.min(c.next_check) > set_at {
            flag = true;
        }
        let wake = c.advance();
        if let LoopStep::Shutdown(t) = on_wake(wake, flag) {
            assert_eq!(t, Trigger::Flag);
            assert!(c.now >= set_at && c.now <= set_at + POLL_PERIOD_MS);
            assert_eq!(c.now, 12_400);
            break;
        }
        assert!(c.now <= set_at);
    }
}

#[test]
fn cadence_fires_checks_every_period() {
    let mut c = Cadence::new(0, 1_000, 100);
    let mut checks = 0;
    for _ in 0..110 {
        if c.advance() == Wake::CheckTimer {
            checks += 1;
        }
    }
    assert_eq!(checks, 10);
    assert_eq!(c.now, 10_000);
}
