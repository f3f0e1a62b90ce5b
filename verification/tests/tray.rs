use cursor_speed_pin::message::Message;
use cursor_speed_pin::state::{Mode, PinState};
use cursor_speed_pin::tray::{
    tray_step, Events, TrayAction, TrayController, TrayEvent, TrayPhase,
};

fn double_click() -> TrayEvent {
    TrayEvent::Ui(Events::DoubleClickTrayIcon)
}

#[test]
fn a_fresh_state_is_enabled_without_a_speed() {
    let state = PinState::new();
    assert!(state.enabled);
    assert_eq!(state.desired_speed, 0);
    assert_eq!(state, PinState::default());
    assert_eq!(state.mode(), Mode::Active);
    assert_eq!(PinState { enabled: false, desired_speed: 3 }.mode(), Mode::Idle);
}

#[test]
fn startup_with_a_speed_starts_active() {
    let (controller, action) = TrayController::start(Some(10));
    assert_eq!(controller.state, PinState { enabled: true, desired_speed: 10 });
    assert_eq!(controller.phase, TrayPhase::Ready);
    assert_eq!(action, TrayAction::UpdateStatus);
}

#[test]
fn startup_without_a_speed_starts_idle_and_silent() {
    let (controller, action) = TrayController::start(None);
    assert!(!controller.state.enabled);
    assert_eq!(controller.state.mode(), Mode::Idle);
    assert_eq!(controller.phase, TrayPhase::Ready);
    assert_eq!(action, TrayAction::Wait);
}

#[test]
fn double_click_while_active_switches_off() {
    let (controller, _) = TrayController::start(Some(10));
    let (controller, action) = tray_step(controller, double_click());
    assert_eq!(controller.state, PinState { enabled: false, desired_speed: 10 });
    assert_eq!(controller.phase, TrayPhase::Ready);
    assert_eq!(action, TrayAction::UpdateStatus);
}

#[test]
fn toggling_twice_pins_the_speed_read_at_the_second_click() {
    let (controller, _) = TrayController::start(Some(10));
    let (controller, _) = tray_step(controller, double_click());
    let (controller, action) = tray_step(controller, double_click());
    assert_eq!(action, TrayAction::ReadSpeed);
    assert_eq!(controller.phase, TrayPhase::Enabling);
    assert!(!controller.state.enabled);
    let (controller, action) = tray_step(controller, TrayEvent::SpeedRead(Some(14)));
    assert_eq!(action, TrayAction::UpdateStatus);
    assert_eq!(controller.state, PinState { enabled: true, desired_speed: 14 });
    assert_eq!(controller.phase, TrayPhase::Ready);
}

#[test]
fn toggling_twice_with_an_unchanged_speed_restores_it() {
    let (controller, _) = TrayController::start(Some(10));
    let (controller, _) = tray_step(controller, double_click());
    let (controller, _) = tray_step(controller, double_click());
    let (controller, _) = tray_step(controller, TrayEvent::SpeedRead(Some(10)));
    assert_eq!(controller.state, PinState { enabled: true, desired_speed: 10 });
}

#[test]
fn double_click_while_idle_with_unreadable_speed_stays_idle() {
    let (controller, _) = TrayController::start(None);
    let before = controller;
    let (controller, action) = tray_step(controller, double_click());
    assert_eq!(action, TrayAction::ReadSpeed);
    let (controller, action) = tray_step(controller, TrayEvent::SpeedRead(None));
    assert_eq!(action, TrayAction::Notify { message: Message::GetFailed });
    assert_eq!(controller, before);
    assert!(!controller.state.enabled);
    assert_eq!(
        Message::GetFailed.text(),
        "Failed to get current cursor speed, see the logfile for more."
    );
}

#[test]
fn startup_failure_can_be_mended_by_a_later_double_click() {
    let (controller, _) = TrayController::start(None);
    let (controller, _) = tray_step(controller, double_click());
    let (controller, action) = tray_step(controller, TrayEvent::SpeedRead(Some(6)));
    assert_eq!(action, TrayAction::UpdateStatus);
    assert_eq!(controller.state, PinState { enabled: true, desired_speed: 6 });
}

#[test]
fn exit_ends_the_process_from_every_phase() {
    let state = PinState { enabled: false, desired_speed: 5 };
    for phase in [TrayPhase::Ready, TrayPhase::Enabling, TrayPhase::Exited] {
        let (controller, action) =
            tray_step(TrayController { state, phase }, TrayEvent::Ui(Events::Exit));
        assert_eq!(action, TrayAction::Exit);
        assert_eq!(controller.phase, TrayPhase::Exited);
        assert_eq!(controller.state, state);
    }
}

#[test]
fn nothing_follows_the_exit() {
    let exited = TrayController {
        state: PinState { enabled: true, desired_speed: 5 },
        phase: TrayPhase::Exited,
    };
    for event in [double_click(), TrayEvent::SpeedRead(Some(9)), TrayEvent::SpeedRead(None)] {
        assert_eq!(tray_step(exited, event), (exited, TrayAction::Exit));
    }
}

#[test]
fn events_out_of_turn_leave_the_state_alone() {
    let state = PinState { enabled: true, desired_speed: 5 };
    let ready = TrayController { state, phase: TrayPhase::Ready };
    assert_eq!(tray_step(ready, TrayEvent::SpeedRead(Some(9))), (ready, TrayAction::Wait));
    assert_eq!(tray_step(ready, TrayEvent::SpeedRead(None)), (ready, TrayAction::Wait));

    let idle = PinState { enabled: false, desired_speed: 5 };
    let enabling = TrayController { state: idle, phase: TrayPhase::Enabling };
    assert_eq!(
        tray_step(enabling, double_click()),
        (TrayController { state: idle, phase: TrayPhase::Ready }, TrayAction::Wait)
    );
}
