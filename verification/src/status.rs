//! What the tray icon shows of the shared state.

use crate::decimal::{decimal, push_decimal};
use crate::message::Message;
use crate::state::PinState;
use vstd::prelude::*;

verus! {

/// The two images that the tray icon can wear.
#[derive(Clone, Copy, Debug, PartialEq, Eq, Structural)]
pub enum IconVariant {
    /// Shown while pinning is on.
    Enabled,
    /// Shown while pinning is off.
    Disabled,
}

/// What is to be shown after the state has changed.
#[derive(Debug, PartialEq, Eq)]
pub struct StatusUpdate {
    /// The words of the notification that announces the new mode.
    pub notification: String,
    /// The tooltip of the tray icon.
    pub tooltip: String,
    /// The image of the tray icon.
    pub icon: IconVariant,
}

/// The notification that announces the mode of `state`.
pub open spec fn status_message(state: PinState) -> Message {
    if state.enabled {
        Message::Pinned { speed: state.desired_speed }
    } else {
        Message::Unpinned
    }
}

/// The tooltip that sums up `state`: the mode, and the pinned speed while
/// pinning is on.
pub open spec fn status_tooltip(state: PinState) -> Seq<char> {
    if state.enabled {
        "Enabled, Speed: "@ + decimal(state.desired_speed as nat)
    } else {
        "Disabled"@
    }
}

/// The image that goes with the mode of `state`.
pub open spec fn status_icon(state: PinState) -> IconVariant {
    if state.enabled {
        IconVariant::Enabled
    } else {
        IconVariant::Disabled
    }
}

/// The notification, the tooltip and the image that show `state`.
pub fn update_status(state: &PinState) -> (update: StatusUpdate)
    ensures
        update.notification@ == status_message(*state).spec_text(),
        update.tooltip@ == status_tooltip(*state),
        update.icon == status_icon(*state),
{
    if state.enabled {
        let mut tooltip = "Enabled, Speed: ".to_owned();
        push_decimal(&mut tooltip, state.desired_speed as u32);
        StatusUpdate {
            notification: (Message::Pinned { speed: state.desired_speed }).text(),
            tooltip,
            icon: IconVariant::Enabled,
        }
    } else {
        StatusUpdate {
            notification: Message::Unpinned.text(),
            tooltip: "Disabled".to_owned(),
            icon: IconVariant::Disabled,
        }
    }
}

} // verus!
