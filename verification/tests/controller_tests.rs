use resource_manager::controller::{
    is_quit, Controller, ControllerAction, ControllerState, CycleEvent, KeyPress, PollOutcome,
};
use resource_manager::model::SystemStats;

#[test]
fn quit_keys_are_q_and_escape() {
    assert!(is_quit(KeyPress::Char('q')));
    assert!(is_quit(KeyPress::Esc));
    assert!(!is_quit(KeyPress::Char('x')));
    assert!(!is_quit(KeyPress::Other));
}

#[test]
fn quit_key_drives_active_to_draining_to_terminated_with_exit_zero() {
    let mut c = Controller::new();
    assert_eq!(c.state, ControllerState::Active);
    let mut releases = 0;
    for ev in [
        CycleEvent::Polled(PollOutcome::Timeout),
        CycleEvent::Polled(PollOutcome::Key(KeyPress::Other)),
        CycleEvent::Polled(PollOutcome::Key(KeyPress::Char('x'))),
        CycleEvent::Polled(PollOutcome::Key(KeyPress::Char('q'))),
    ] {
        assert_eq!(c.state, ControllerState::Active);
        match c.step(ev) {
            ControllerAction::RunCycle => {}
            ControllerAction::ReleaseTerminal => {
                releases += 1;
                c.released();
            }
        }
    }
    assert_eq!(releases, 1);
    assert_eq!(c.state, ControllerState::Terminated);
    assert_eq!(c.exit_code(), 0);
}

#[test]
fn escape_quits_too() {
    let mut c = Controller::new();
    let action = c.step(CycleEvent::Polled(PollOutcome::Key(KeyPress::Esc)));
    assert_eq!(action, ControllerAction::ReleaseTerminal);
    assert_eq!(c.state, ControllerState::Draining);
    c.released();
    assert_eq!(c.exit_code(), 0);
}

#[test]
fn other_keys_and_timeouts_keep_the_loop_running() {
    let mut c = Controller::new();
    assert_eq!(
        c.step(CycleEvent::Polled(PollOutcome::Timeout)),
        ControllerAction::RunCycle
    );
    assert_eq!(
        c.step(CycleEvent::Polled(PollOutcome::Key(KeyPress::Other))),
        ControllerAction::RunCycle
    );
    assert_eq!(c.state, ControllerState::Active);
    assert!(!c.failed);
}

#[test]
fn render_failure_tears_down_and_exits_nonzero() {
    let mut c = Controller::new();
    let action = c.step(CycleEvent::RenderFailed);
    assert_eq!(action, ControllerAction::ReleaseTerminal);
    assert_eq!(c.state, ControllerState::Draining);
    c.released();
    assert_eq!(c.exit_code(), 1);
}

#[test]
fn input_failure_tears_down_and_exits_nonzero() {
    let mut c = Controller::new();
    let action = c.step(CycleEvent::Polled(PollOutcome::Failed));
    assert_eq!(action, ControllerAction::ReleaseTerminal);
    c.released();
    assert_eq!(c.exit_code(), 1);
}

#[test]
fn memory_snapshot_well_formedness_is_checkable() {
    let mut stats = SystemStats {
        host_name: None,
        os_version: None,
        uptime: 0,
        arch: String::from("arm64"),
        os_name: None,
        cpu_names: vec![],
        cpu_global_usage: 0,
        cpu_cores: vec![],
        total_memory: 100,
        used_memory: 40,
        free_memory: 10,
    };
    assert!(stats.is_wf());
    assert_eq!(stats.available_memory(), 60);
    stats.used_memory = 200;
    assert!(!stats.is_wf());
}
