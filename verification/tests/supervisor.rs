use helper_supervisor::supervisor::{
    stop_result, HelperSlot, Liveness, SlotId, StartEvent, StartPhase, SupervisorError,
    CREATE_NO_WINDOW,
};

fn blocker() -> HelperSlot<u32> {
    HelperSlot::for_helper(SlotId::InputBlocker)
}

fn start(
    slot: &mut HelperSlot<u32>,
    resolved: Result<&str, &str>,
    liveness: Liveness,
    spawned: Result<u32, &str>,
) -> (Result<(), SupervisorError>, u32) {
    let mut spawns = 0;
    let mut phase = slot.begin_start();
    loop {
        phase = match phase {
            StartPhase::AwaitResolution => {
                let answer = resolved.map(|p| p.to_string()).map_err(|e| e.to_string());
                slot.start_step(StartPhase::AwaitResolution, StartEvent::Resolved(answer))
            }
            StartPhase::AwaitProbe => {
                assert!(slot.handle_mut().is_some());
                slot.start_step(StartPhase::AwaitProbe, StartEvent::Probed(liveness))
            }
            StartPhase::AwaitSpawn => {
                spawns += 1;
                let answer = spawned.map_err(|e| e.to_string());
                slot.start_step(StartPhase::AwaitSpawn, StartEvent::Spawned(answer))
            }
            StartPhase::Finished(result) => return (result, spawns),
        };
    }
}

#[test]
fn known_helpers() {
    assert_eq!(SlotId::InputBlocker.name(), "input-blocker");
    assert_eq!(SlotId::InputBlocker.resource(), "keyblocker.exe");
    assert_eq!(SlotId::ConnectionControl.name(), "connection-control");
    assert_eq!(SlotId::ConnectionControl.resource(), "windowsCC.exe");
    let slot: HelperSlot<u32> = HelperSlot::for_helper(SlotId::ConnectionControl);
    assert_eq!(slot.name(), "connection-control");
    assert_eq!(slot.resource(), "windowsCC.exe");
    assert_eq!(slot.executable_path(), None);
    assert!(!slot.is_running());
    assert_eq!(CREATE_NO_WINDOW, 0x0800_0000);
}

#[test]
fn new_slot_is_empty() {
    let slot: HelperSlot<u32> = HelperSlot::new("helper".to_string(), "helper.exe".to_string());
    assert_eq!(slot.name(), "helper");
    assert_eq!(slot.resource(), "helper.exe");
    assert_eq!(slot.executable_path(), None);
    assert!(!slot.is_running());
}

#[test]
fn start_on_an_empty_slot_spawns() {
    let mut slot = blocker();
    let (result, spawns) = start(&mut slot, Ok("C:/app/keyblocker.exe"), Liveness::Running, Ok(41));
    assert_eq!(result, Ok(()));
    assert_eq!(spawns, 1);
    assert!(slot.is_running());
    assert_eq!(slot.executable_path(), Some("C:/app/keyblocker.exe"));
    assert_eq!(slot.stop(), Some(41));
}

#[test]
fn start_on_an_empty_slot_does_not_probe() {
    let mut slot = blocker();
    let next = slot.start_step(StartPhase::AwaitResolution, StartEvent::Resolved(Ok("p".to_string())));
    assert_eq!(next, StartPhase::AwaitSpawn);
}

#[test]
fn second_start_does_not_spawn_again() {
    let mut slot = blocker();
    assert_eq!(start(&mut slot, Ok("p"), Liveness::Running, Ok(1)), (Ok(()), 1));
    assert_eq!(start(&mut slot, Ok("p"), Liveness::Running, Ok(2)), (Ok(()), 0));
    assert_eq!(start(&mut slot, Ok("p"), Liveness::Running, Ok(3)), (Ok(()), 0));
    assert_eq!(slot.stop(), Some(1));
}

#[test]
fn failed_probe_counts_as_alive() {
    let mut slot = blocker();
    assert_eq!(start(&mut slot, Ok("p"), Liveness::Running, Ok(1)), (Ok(()), 1));
    assert_eq!(start(&mut slot, Ok("p"), Liveness::Unknown, Ok(2)), (Ok(()), 0));
    assert_eq!(slot.stop(), Some(1));
}

#[test]
fn exited_helper_is_replaced() {
    let mut slot = blocker();
    assert_eq!(start(&mut slot, Ok("p"), Liveness::Running, Ok(1)), (Ok(()), 1));
    assert_eq!(start(&mut slot, Ok("q"), Liveness::Exited, Ok(2)), (Ok(()), 1));
    assert_eq!(slot.executable_path(), Some("q"));
    assert_eq!(slot.stop(), Some(2));
}

#[test]
fn stale_handle_is_dropped_when_the_respawn_fails() {
    let mut slot = blocker();
    assert_eq!(start(&mut slot, Ok("p"), Liveness::Running, Ok(1)), (Ok(()), 1));
    let (result, spawns) = start(&mut slot, Ok("p"), Liveness::Exited, Err("access denied"));
    assert_eq!(result, Err(SupervisorError::Spawn("access denied".to_string())));
    assert_eq!(spawns, 1);
    assert!(!slot.is_running());
    assert_eq!(slot.stop(), None);
}

#[test]
fn resolution_failure_ends_the_start() {
    let mut slot = blocker();
    let (result, spawns) = start(&mut slot, Err("resource not found"), Liveness::Running, Ok(1));
    assert_eq!(result, Err(SupervisorError::ResourceResolution("resource not found".to_string())));
    assert_eq!(spawns, 0);
    assert!(!slot.is_running());
    assert_eq!(slot.executable_path(), None);
}

#[test]
fn resolution_failure_leaves_a_running_helper_alone() {
    let mut slot = blocker();
    assert_eq!(start(&mut slot, Ok("p"), Liveness::Running, Ok(7)), (Ok(()), 1));
    let (result, spawns) = start(&mut slot, Err("gone"), Liveness::Running, Ok(8));
    assert_eq!(result, Err(SupervisorError::ResourceResolution("gone".to_string())));
    assert_eq!(spawns, 0);
    assert!(slot.is_running());
    assert_eq!(slot.executable_path(), Some("p"));
    assert_eq!(slot.stop(), Some(7));
}

#[test]
fn spawn_failure_is_reported() {
    let mut slot = blocker();
    let (result, spawns) = start(&mut slot, Ok("p"), Liveness::Running, Err("no such file"));
    assert_eq!(result, Err(SupervisorError::Spawn("no such file".to_string())));
    assert_eq!(spawns, 1);
    assert!(!slot.is_running());
    assert_eq!(slot.executable_path(), Some("p"));
}

#[test]
fn events_that_are_not_awaited_change_nothing() {
    let mut slot = blocker();
    assert_eq!(
        slot.start_step(StartPhase::AwaitResolution, StartEvent::Spawned(Ok(5))),
        StartPhase::AwaitResolution
    );
    assert!(!slot.is_running());
    assert_eq!(
        slot.start_step(StartPhase::AwaitResolution, StartEvent::Probed(Liveness::Exited)),
        StartPhase::AwaitResolution
    );
    assert_eq!(
        slot.start_step(StartPhase::AwaitSpawn, StartEvent::Resolved(Ok("p".to_string()))),
        StartPhase::AwaitSpawn
    );
    assert_eq!(slot.executable_path(), None);
    assert_eq!(
        slot.start_step(StartPhase::AwaitProbe, StartEvent::Spawned(Ok(5))),
        StartPhase::AwaitProbe
    );
    assert_eq!(
        slot.start_step(StartPhase::Finished(Ok(())), StartEvent::Spawned(Ok(5))),
        StartPhase::Finished(Ok(()))
    );
    let failed = StartPhase::Finished(Err(SupervisorError::Spawn("x".to_string())));
    assert_eq!(
        slot.start_step(failed, StartEvent::Resolved(Ok("p".to_string()))),
        StartPhase::Finished(Err(SupervisorError::Spawn("x".to_string())))
    );
    assert!(!slot.is_running());
}

#[test]
fn probe_on_an_empty_slot_leads_to_a_spawn() {
    let mut slot = blocker();
    assert_eq!(
        slot.start_step(StartPhase::AwaitProbe, StartEvent::Probed(Liveness::Running)),
        StartPhase::AwaitSpawn
    );
}

#[test]
fn stop_twice_on_a_stopped_slot() {
    let mut slot = blocker();
    assert_eq!(slot.stop(), None);
    assert_eq!(stop_result(None), Ok(()));
    assert_eq!(slot.stop(), None);
    assert_eq!(stop_result(None), Ok(()));
    assert!(!slot.is_running());
}

#[test]
fn stop_releases_the_handle_once() {
    let mut slot = blocker();
    assert_eq!(start(&mut slot, Ok("p"), Liveness::Running, Ok(9)), (Ok(()), 1));
    assert!(slot.is_running());
    assert_eq!(slot.stop(), Some(9));
    assert!(!slot.is_running());
    assert_eq!(slot.stop(), None);
    assert_eq!(slot.executable_path(), Some("p"));
    assert_eq!(slot.name(), "input-blocker");
}

#[test]
fn stop_results() {
    assert_eq!(stop_result(None), Ok(()));
    assert_eq!(stop_result(Some(Ok(()))), Ok(()));
    assert_eq!(
        stop_result(Some(Err("invalid handle".to_string()))),
        Err(SupervisorError::Kill("invalid handle".to_string()))
    );
}

#[test]
fn handle_can_be_changed_in_place() {
    let mut slot = blocker();
    assert!(slot.handle_mut().is_none());
    assert_eq!(start(&mut slot, Ok("p"), Liveness::Running, Ok(3)), (Ok(()), 1));
    if let Some(h) = slot.handle_mut() {
        *h += 1;
    }
    assert!(slot.is_running());
    assert_eq!(slot.stop(), Some(4));
}

#[test]
fn slots_are_independent() {
    let mut a: HelperSlot<u32> = HelperSlot::for_helper(SlotId::InputBlocker);
    let mut b: HelperSlot<u32> = HelperSlot::for_helper(SlotId::ConnectionControl);
    assert_eq!(start(&mut a, Ok("a"), Liveness::Running, Ok(1)), (Ok(()), 1));
    assert!(!b.is_running());
    assert_eq!(start(&mut b, Ok("b"), Liveness::Running, Ok(2)), (Ok(()), 1));
    assert_eq!(a.stop(), Some(1));
    assert!(b.is_running());
    assert_eq!(b.stop(), Some(2));
}

#[test]
fn error_text() {
    assert_eq!(SupervisorError::ResourceResolution("a".to_string()).into_text(), "a");
    assert_eq!(SupervisorError::Spawn("b".to_string()).into_text(), "b");
    assert_eq!(SupervisorError::Kill("c".to_string()).into_text(), "c");
}
