//! The tray controller: it owns the shared state and changes it when the user
//! double-clicks the tray icon.
//!
//! Like the monitor, the controller leaves the system to its driver. The
//! driver hands in the events of the tray icon, reads the live speed when
//! asked to, and shows what the actions of [`tray_step`] name.

use crate::message::Message;
use crate::state::PinState;
use vstd::prelude::*;

verus! {

/// What the user can do with the tray icon.
#[derive(Clone, Copy, Debug, PartialEq, Eq, Structural)]
pub enum Events {
    /// A double click on the icon: the toggle.
    DoubleClickTrayIcon,
    /// The "Exit" entry of the icon's menu.
    Exit,
}

/// What the controller is waiting for.
#[derive(Clone, Copy, Debug, PartialEq, Eq, Structural)]
pub enum TrayPhase {
    /// The next event of the tray icon.
    Ready,
    /// The live speed, to switch pinning on with it.
    Enabling,
    /// Nothing: the user has asked to leave.
    Exited,
}

/// What the driver reports to the controller.
#[derive(Clone, Copy, Debug, PartialEq, Eq, Structural)]
pub enum TrayEvent {
    /// The user did something with the tray icon.
    Ui(Events),
    /// The live speed was asked for: the answer, or `None` where there was
    /// none.
    SpeedRead(Option<u8>),
}

/// What the controller asks of its driver.
#[derive(Clone, Copy, Debug, PartialEq, Eq, Structural)]
pub enum TrayAction {
    /// Wait for the next event of the tray icon.
    Wait,
    /// Read the live speed and report `SpeedRead`.
    ReadSpeed,
    /// Publish the state, show it on the icon and announce it, then wait.
    UpdateStatus,
    /// Show this notification, then wait.
    Notify { message: Message },
    /// End the process.
    Exit,
}

/// The tray controller: the shared state and what the controller waits for.
#[derive(Clone, Copy, Debug, PartialEq, Eq, Structural)]
pub struct TrayController {
    /// The shared state as the controller last set it.
    pub state: PinState,
    /// What the controller is waiting for.
    pub phase: TrayPhase,
}

/// The controller and its first action, given the answer to the read of the
/// live speed that opens the process. With a speed, pinning starts switched on
/// at that speed and the status is shown. Without one, pinning starts
/// switched off, and nothing is shown.
pub open spec fn tray_started(initial: Option<u8>) -> (TrayController, TrayAction) {
    match initial {
        Some(speed) => (
            TrayController {
                state: PinState { enabled: true, desired_speed: speed },
                phase: TrayPhase::Ready,
            },
            TrayAction::UpdateStatus,
        ),
        None => (
            TrayController {
                state: PinState { enabled: false, desired_speed: PinState::initial().desired_speed },
                phase: TrayPhase::Ready,
            },
            TrayAction::Wait,
        ),
    }
}

/// The controller and the action that follow an event.
///
/// A double click while pinning is on switches it off. A double click while
/// pinning is off asks for the live speed: with a speed, pinning is switched on
/// at that speed; without one, the user is told and nothing changes. "Exit"
/// ends the process from every phase. Any other event is passed over: the
/// state stays, and a read that was awaited is given up.
pub open spec fn tray_next(controller: TrayController, event: TrayEvent) -> (
    TrayController,
    TrayAction,
) {
    match (controller.phase, event) {
        (TrayPhase::Exited, _) => (controller, TrayAction::Exit),
        (_, TrayEvent::Ui(Events::Exit)) => (
            TrayController { state: controller.state, phase: TrayPhase::Exited },
            TrayAction::Exit,
        ),
        (TrayPhase::Ready, TrayEvent::Ui(Events::DoubleClickTrayIcon)) => if controller.state.enabled {
            (
                TrayController {
                    state: PinState {
                        enabled: false,
                        desired_speed: controller.state.desired_speed,
                    },
                    phase: TrayPhase::Ready,
                },
                TrayAction::UpdateStatus,
            )
        } else {
            (
                TrayController { state: controller.state, phase: TrayPhase::Enabling },
                TrayAction::ReadSpeed,
            )
        },
        (TrayPhase::Enabling, TrayEvent::SpeedRead(Some(speed))) => (
            TrayController {
                state: PinState { enabled: true, desired_speed: speed },
                phase: TrayPhase::Ready,
            },
            TrayAction::UpdateStatus,
        ),
        (TrayPhase::Enabling, TrayEvent::SpeedRead(None)) => (
            TrayController { state: controller.state, phase: TrayPhase::Ready },
            TrayAction::Notify { message: Message::GetFailed },
        ),
        _ => (TrayController { state: controller.state, phase: TrayPhase::Ready }, TrayAction::Wait),
    }
}

impl TrayController {
    /// Holds of every controller that [`TrayController::start`] and
    /// [`tray_step`] give rise to: the live speed is awaited only while
    /// pinning is off.
    pub open spec fn well_formed(&self) -> bool {
        self.phase is Enabling ==> !self.state.enabled
    }

    /// The controller and its first action, given the answer to the read of
    /// the live speed that opens the process.
    pub fn start(initial: Option<u8>) -> (started: (TrayController, TrayAction))
        ensures
            started == tray_started(initial),
            started.0.well_formed(),
    {
        match initial {
            Some(speed) => (
                TrayController {
                    state: PinState { enabled: true, desired_speed: speed },
                    phase: TrayPhase::Ready,
                },
                TrayAction::UpdateStatus,
            ),
            None => {
                let fresh = PinState::new();
                (
                    TrayController {
                        state: PinState { enabled: false, desired_speed: fresh.desired_speed },
                        phase: TrayPhase::Ready,
                    },
                    TrayAction::Wait,
                )
            },
        }
    }
}

/// One step of the controller: the controller and the action that follow
/// `event`.
pub fn tray_step(controller: TrayController, event: TrayEvent) -> (next: (
    TrayController,
    TrayAction,
))
    ensures
        next == tray_next(controller, event),
        controller.well_formed() ==> next.0.well_formed(),
{
    let state = controller.state;
    if let TrayPhase::Exited = controller.phase {
        return (controller, TrayAction::Exit);
    }
    match event {
        TrayEvent::Ui(Events::Exit) => (
            TrayController { state, phase: TrayPhase::Exited },
            TrayAction::Exit,
        ),
        TrayEvent::Ui(Events::DoubleClickTrayIcon) => {
            if let TrayPhase::Enabling = controller.phase {
                (TrayController { state, phase: TrayPhase::Ready }, TrayAction::Wait)
            } else if state.enabled {
                (
                    TrayController {
                        state: PinState { enabled: false, desired_speed: state.desired_speed },
                        phase: TrayPhase::Ready,
                    },
                    TrayAction::UpdateStatus,
                )
            } else {
                (TrayController { state, phase: TrayPhase::Enabling }, TrayAction::ReadSpeed)
            }
        },
        TrayEvent::SpeedRead(current) => {
            if let TrayPhase::Enabling = controller.phase {
                match current {
                    Some(speed) => (
                        TrayController {
                            state: PinState { enabled: true, desired_speed: speed },
                            phase: TrayPhase::Ready,
                        },
                        TrayAction::UpdateStatus,
                    ),
                    None => (
                        TrayController { state, phase: TrayPhase::Ready },
                        TrayAction::Notify { message: Message::GetFailed },
                    ),
                }
            } else {
                (TrayController { state, phase: TrayPhase::Ready }, TrayAction::Wait)
            }
        },
    }
}

/// Switching pinning off and on again pins the speed that is live at the
/// second double click, whatever was pinned before.
pub proof fn lemma_toggle_twice_pins_the_live_speed(before: u8, live: u8)
    ensures
        ({
            let start = TrayController {
                state: PinState { enabled: true, desired_speed: before },
                phase: TrayPhase::Ready,
            };
            let off = tray_next(start, TrayEvent::Ui(Events::DoubleClickTrayIcon));
            let asked = tray_next(off.0, TrayEvent::Ui(Events::DoubleClickTrayIcon));
            let on = tray_next(asked.0, TrayEvent::SpeedRead(Some(live)));
            &&& off.0.state == PinState { enabled: false, desired_speed: before }
            &&& off.1 == TrayAction::UpdateStatus
            &&& asked.0.state == off.0.state
            &&& asked.1 == TrayAction::ReadSpeed
            &&& on.0.state == PinState { enabled: true, desired_speed: live }
            &&& on.0.phase == TrayPhase::Ready
            &&& on.1 == TrayAction::UpdateStatus
        }),
{
}

/// A double click that finds pinning off and the live speed unreadable leaves
/// the state as it was, pinning off, and tells the user once.
pub proof fn lemma_failed_enable_changes_nothing(controller: TrayController)
    requires
        controller.phase == TrayPhase::Ready,
        !controller.state.enabled,
    ensures
        ({
            let asked = tray_next(controller, TrayEvent::Ui(Events::DoubleClickTrayIcon));
            let refused = tray_next(asked.0, TrayEvent::SpeedRead(None));
            &&& asked.1 == TrayAction::ReadSpeed
            &&& refused.1 == TrayAction::Notify { message: Message::GetFailed }
            &&& refused.0 == controller
            &&& !refused.0.state.enabled
        }),
{
}

/// The state changes only where the switch flips, and every flip is shown:
/// the action of a step is `UpdateStatus` exactly where the switch has
/// flipped.
pub proof fn lemma_every_flip_is_shown(controller: TrayController, event: TrayEvent)
    requires
        controller.well_formed(),
    ensures
        ({
            let next = tray_next(controller, event);
            &&& (next.1 == TrayAction::UpdateStatus) == (next.0.state.enabled
                != controller.state.enabled)
            &&& next.0.state != controller.state ==> next.1 == TrayAction::UpdateStatus
        }),
{
}

/// Pinning is switched on only by a live speed that was asked for, and the
/// speed that is pinned from then on is that live speed.
pub proof fn lemma_switching_on_pins_the_live_speed(controller: TrayController, event: TrayEvent)
    requires
        !controller.state.enabled,
        tray_next(controller, event).0.state.enabled,
    ensures
        controller.phase == TrayPhase::Enabling,
        event == TrayEvent::SpeedRead(Some(tray_next(controller, event).0.state.desired_speed)),
{
}

/// Pinning is switched off only by a double click, and the pinned speed stays
/// as it was.
pub proof fn lemma_switching_off_keeps_the_speed(controller: TrayController, event: TrayEvent)
    requires
        controller.well_formed(),
        controller.state.enabled,
        !tray_next(controller, event).0.state.enabled,
    ensures
        event == TrayEvent::Ui(Events::DoubleClickTrayIcon),
        tray_next(controller, event).0.state.desired_speed == controller.state.desired_speed,
{
}

/// The pinned speed changes only when pinning is switched on.
pub proof fn lemma_speed_changes_only_when_switched_on(
    controller: TrayController,
    event: TrayEvent,
)
    requires
        controller.well_formed(),
        tray_next(controller, event).0.state.desired_speed != controller.state.desired_speed,
    ensures
        !controller.state.enabled,
        tray_next(controller, event).0.state.enabled,
{
}

} // verus!
