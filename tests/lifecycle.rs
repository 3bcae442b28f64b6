use fix_firefox_launcher::lifecycle::{
    handle_control, ControlEvent, ControlReply, LoopAction, LoopEvent, LoopStep, RunState,
    ServiceLoop,
};

#[test]
fn stop_during_sleep_winds_down_in_order() {
    let mut sl = ServiceLoop::new(60);
    let mut reports = vec![];
    let s = sl.step(LoopEvent::Begin);
    reports.extend(s.report);
    assert_eq!(s.action, LoopAction::Sleep);
    let s = sl.step(LoopEvent::Woke { stop_requested: false, elapsed_secs: 1 });
    assert_eq!(s, LoopStep { report: None, action: LoopAction::Sleep });
    let s = sl.step(LoopEvent::Woke { stop_requested: true, elapsed_secs: 2 });
    reports.extend(s.report);
    assert_eq!(s.action, LoopAction::CleanupPause);
    let s = sl.step(LoopEvent::CleanupDone);
    reports.extend(s.report);
    assert_eq!(s.action, LoopAction::Exit);
    assert_eq!(reports, vec![RunState::Running, RunState::StopPending, RunState::Stopped]);
    assert_eq!(sl.state, RunState::Stopped);
}

#[test]
fn stop_wins_over_a_due_tick() {
    let mut sl = ServiceLoop::new(5);
    sl.step(LoopEvent::Begin);
    let s = sl.step(LoopEvent::Woke { stop_requested: true, elapsed_secs: 100 });
    assert_eq!(s.action, LoopAction::CleanupPause);
}

#[test]
fn reconciles_when_interval_elapsed() {
    let mut sl = ServiceLoop::new(10);
    sl.step(LoopEvent::Begin);
    assert_eq!(sl.step(LoopEvent::Woke { stop_requested: false, elapsed_secs: 9 }).action, LoopAction::Sleep);
    assert_eq!(
        sl.step(LoopEvent::Woke { stop_requested: false, elapsed_secs: 10 }).action,
        LoopAction::ReconcileAndSleep
    );
    assert_eq!(sl.state, RunState::Running);
}

#[test]
fn expected_events() {
    let mut sl = ServiceLoop::new(1);
    assert!(sl.expects(&LoopEvent::Begin));
    assert!(!sl.expects(&LoopEvent::CleanupDone));
    sl.step(LoopEvent::Begin);
    assert!(sl.expects(&LoopEvent::Woke { stop_requested: false, elapsed_secs: 0 }));
    assert!(!sl.expects(&LoopEvent::Begin));
}

#[test]
fn control_events() {
    let r = handle_control(ControlEvent::Stop);
    assert_eq!(r.reply, ControlReply::NoError);
    assert!(r.request_stop);
    let r = handle_control(ControlEvent::Interrogate);
    assert_eq!(r.reply, ControlReply::NoError);
    assert!(!r.request_stop);
    let r = handle_control(ControlEvent::Other);
    assert_eq!(r.reply, ControlReply::NotImplemented);
    assert!(!r.request_stop);
}
