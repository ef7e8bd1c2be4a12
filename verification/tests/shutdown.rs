use helper_supervisor::shutdown::{
    begin_close, close_step, decide_close, failed_stops, pending_action, relaunch_on_close,
    CloseAction, CloseEvent, ClosePhase,
};
use helper_supervisor::supervisor::SupervisorError;

fn close(outcomes: Vec<Result<(), SupervisorError>>, settings: Option<&str>) -> ClosePhase {
    let phase = begin_close();
    assert_eq!(pending_action(phase), CloseAction::SuppressCloseAndStopHelpers);
    let phase = close_step(phase, CloseEvent::HelpersStopped(outcomes));
    assert_eq!(phase, ClosePhase::Deciding);
    assert_eq!(pending_action(phase), CloseAction::ReadSettings);
    close_step(phase, CloseEvent::SettingsRead(settings.map(|s| s.to_string())))
}

#[test]
fn missing_settings_file_restarts() {
    let end = close(vec![Ok(()), Ok(())], None);
    assert_eq!(end, ClosePhase::Restarting);
    assert_eq!(pending_action(end), CloseAction::Restart);
}

#[test]
fn explicit_false_terminates() {
    let end = close(vec![Ok(()), Ok(())], Some("{\"relaunchOnClose\": false}"));
    assert_eq!(end, ClosePhase::Terminating);
    assert_eq!(pending_action(end), CloseAction::ReleaseClose);
}

#[test]
fn explicit_true_restarts() {
    assert_eq!(close(vec![], Some("{\"relaunchOnClose\": true}")), ClosePhase::Restarting);
}

#[test]
fn unusable_settings_restart() {
    assert_eq!(close(vec![], Some("")), ClosePhase::Restarting);
    assert_eq!(close(vec![], Some("{broken")), ClosePhase::Restarting);
    assert_eq!(close(vec![], Some("{}")), ClosePhase::Restarting);
    assert_eq!(close(vec![], Some("{\"relaunchOnClose\": \"false\"}")), ClosePhase::Restarting);
    assert_eq!(close(vec![], Some("{\"relaunchOnClose\": 0}")), ClosePhase::Restarting);
    assert_eq!(close(vec![], Some("{\"allowMinimize\": false}")), ClosePhase::Restarting);
    assert_eq!(close(vec![], Some("[false]")), ClosePhase::Restarting);
}

#[test]
fn failed_stops_do_not_hold_the_close_up() {
    let failures = vec![
        Err(SupervisorError::Kill("access denied".to_string())),
        Err(SupervisorError::Kill("invalid handle".to_string())),
    ];
    assert_eq!(close(failures.clone(), Some("{\"relaunchOnClose\": false}")), ClosePhase::Terminating);
    assert_eq!(close(failures, None), ClosePhase::Restarting);
}

#[test]
fn relaunch_flag() {
    assert!(relaunch_on_close(None));
    assert!(relaunch_on_close(Some("")));
    assert!(relaunch_on_close(Some("{\"relaunchOnClose\": true}")));
    assert!(!relaunch_on_close(Some("{\"relaunchOnClose\": false}")));
    assert!(!relaunch_on_close(Some("{\"alwaysOnTop\": true, \"relaunchOnClose\": false, \"extra\": [1, 2]}")));
    assert!(relaunch_on_close(Some("{\"relaunchOnClose\": null}")));
}

#[test]
fn decisions() {
    assert_eq!(decide_close(true), ClosePhase::Restarting);
    assert_eq!(decide_close(false), ClosePhase::Terminating);
}

#[test]
fn actions_by_phase() {
    assert_eq!(pending_action(ClosePhase::Stopping), CloseAction::SuppressCloseAndStopHelpers);
    assert_eq!(pending_action(ClosePhase::Deciding), CloseAction::ReadSettings);
    assert_eq!(pending_action(ClosePhase::Restarting), CloseAction::Restart);
    assert_eq!(pending_action(ClosePhase::Terminating), CloseAction::ReleaseClose);
}

#[test]
fn phases_do_not_go_back() {
    let no = || CloseEvent::SettingsRead(Some("{\"relaunchOnClose\": false}".to_string()));
    let stopped = || CloseEvent::HelpersStopped(vec![]);
    assert_eq!(close_step(ClosePhase::Stopping, no()), ClosePhase::Stopping);
    assert_eq!(close_step(ClosePhase::Deciding, stopped()), ClosePhase::Deciding);
    assert_eq!(close_step(ClosePhase::Restarting, stopped()), ClosePhase::Restarting);
    assert_eq!(close_step(ClosePhase::Restarting, no()), ClosePhase::Restarting);
    assert_eq!(close_step(ClosePhase::Terminating, stopped()), ClosePhase::Terminating);
    assert_eq!(close_step(ClosePhase::Terminating, CloseEvent::SettingsRead(None)), ClosePhase::Terminating);
}

#[test]
fn failed_stops_are_listed_in_order() {
    let kill = |s: &str| Err(SupervisorError::Kill(s.to_string()));
    assert_eq!(failed_stops(&vec![]), Vec::<usize>::new());
    assert_eq!(failed_stops(&vec![Ok(()), Ok(())]), Vec::<usize>::new());
    assert_eq!(failed_stops(&vec![kill("a"), Ok(()), kill("b")]), vec![0, 2]);
    assert_eq!(failed_stops(&vec![Ok(()), kill("a")]), vec![1]);
    assert_eq!(failed_stops(&vec![kill("a"), kill("b"), kill("c")]), vec![0, 1, 2]);
}
