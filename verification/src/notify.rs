//! Desktop notifications: what one holds, and the steps that show it and take
//! it down again.
//!
//! A notification is sent and forgotten. Whoever delivers it runs the steps of
//! [`notify_step`] on a task of its own: it does what an action asks, reports
//! what came of it as the next event, and stops when told to. A failure on the
//! way is reported once, to be logged, and ends the delivery; the user never
//! hears of it.

use crate::wide::{encode_string_wide, wide_field};
use vstd::prelude::*;

verus! {

/// The number of code units in the title field of a notification.
pub const TITLE_LENGTH: usize = 64;

/// The number of code units in the body field of a notification.
pub const INFO_LENGTH: usize = 256;

/// How long a notification stays on the screen, in milliseconds.
pub const DISPLAY_MILLIS: u64 = 3000;

/// The title that every notification carries.
pub open spec fn title_text() -> Seq<char> {
    "CursorSpeedPin"@
}

/// The two text fields of a notification, as the notification area takes them.
#[derive(Debug, PartialEq, Eq)]
pub struct Notification {
    /// The title, in a field of [`TITLE_LENGTH`] code units.
    pub title: Vec<u16>,
    /// The body, in a field of [`INFO_LENGTH`] code units.
    pub info: Vec<u16>,
}

impl Notification {
    /// Holds of the notification that [`notify`] makes of `message`: the fixed
    /// title and the message, each in its field.
    pub open spec fn carries(&self, message: Seq<char>) -> bool {
        &&& self.title@ == wide_field(title_text(), TITLE_LENGTH as nat)
        &&& self.info@ == wide_field(message, INFO_LENGTH as nat)
    }
}

/// The notification that shows `message` under the fixed title.
pub fn notify(message: &str) -> (notification: Notification)
    ensures
        notification.carries(message@),
        notification.title@.len() == TITLE_LENGTH,
        notification.info@.len() == INFO_LENGTH,
{
    Notification {
        title: encode_string_wide("CursorSpeedPin", TITLE_LENGTH),
        info: encode_string_wide(message, INFO_LENGTH),
    }
}

/// How far the delivery of one notification has come.
#[derive(Clone, Copy, Debug, PartialEq, Eq, Structural)]
pub enum NotifyStage {
    /// Nothing has been done yet.
    Pending,
    /// An identifier for the notification has been asked for.
    AwaitingId,
    /// The notification has been handed to the notification area.
    AwaitingAdd,
    /// The notification is on the screen and its time is running.
    Displayed,
    /// The notification area has been asked to take the notification down.
    AwaitingRemove,
    /// The delivery is over.
    Finished,
}

/// What came of the last action of a delivery.
#[derive(Clone, Copy, Debug, PartialEq, Eq, Structural)]
pub enum NotifyEvent {
    /// The task of the delivery has started.
    Started,
    /// The system answered the request for an identifier with this result
    /// code; zero means that there is one.
    IdCreated { result: i32 },
    /// The notification area answered the request to show the notification
    /// with this status; zero means that it did not.
    Added { status: i32 },
    /// The display time has passed.
    Elapsed,
    /// The notification area answered the request to take the notification
    /// down with this status; zero means that it did not.
    Removed { status: i32 },
}

/// Why a delivery ended early or left something behind.
#[derive(Clone, Copy, Debug, PartialEq, Eq, Structural)]
pub enum NotifyFault {
    /// No identifier could be had; the system gave this result code.
    NoId { result: i32 },
    /// The notification could not be shown.
    NotShown,
    /// The notification could not be taken down.
    NotRemoved,
}

/// What the deliverer is to do next.
#[derive(Clone, Copy, Debug, PartialEq, Eq, Structural)]
pub enum NotifyAction {
    /// Ask the system for an identifier and report `IdCreated`.
    CreateId,
    /// Hand the notification to the notification area and report `Added`.
    Add,
    /// Let this many milliseconds pass and report `Elapsed`.
    Wait { millis: u64 },
    /// Ask the notification area to take the notification down and report
    /// `Removed`.
    Remove,
    /// Log the fault and end the task.
    Report { fault: NotifyFault },
    /// End the task.
    Stop,
}

/// The stage and the action that follow an event. An event that the stage does
/// not await ends the delivery.
pub open spec fn notify_next(stage: NotifyStage, event: NotifyEvent) -> (NotifyStage, NotifyAction) {
    match (stage, event) {
        (NotifyStage::Pending, NotifyEvent::Started) => (
            NotifyStage::AwaitingId,
            NotifyAction::CreateId,
        ),
        (NotifyStage::AwaitingId, NotifyEvent::IdCreated { result }) => if result == 0 {
            (NotifyStage::AwaitingAdd, NotifyAction::Add)
        } else {
            (NotifyStage::Finished, NotifyAction::Report { fault: NotifyFault::NoId { result } })
        },
        (NotifyStage::AwaitingAdd, NotifyEvent::Added { status }) => if status != 0 {
            (NotifyStage::Displayed, NotifyAction::Wait { millis: DISPLAY_MILLIS })
        } else {
            (NotifyStage::Finished, NotifyAction::Report { fault: NotifyFault::NotShown })
        },
        (NotifyStage::Displayed, NotifyEvent::Elapsed) => (
            NotifyStage::AwaitingRemove,
            NotifyAction::Remove,
        ),
        (NotifyStage::AwaitingRemove, NotifyEvent::Removed { status }) => if status != 0 {
            (NotifyStage::Finished, NotifyAction::Stop)
        } else {
            (NotifyStage::Finished, NotifyAction::Report { fault: NotifyFault::NotRemoved })
        },
        _ => (NotifyStage::Finished, NotifyAction::Stop),
    }
}

/// One step of a delivery: the stage and the action that follow `event`.
pub fn notify_step(stage: NotifyStage, event: NotifyEvent) -> (next: (NotifyStage, NotifyAction))
    ensures
        next == notify_next(stage, event),
{
    match stage {
        NotifyStage::Pending => {
            if let NotifyEvent::Started = event {
                return (NotifyStage::AwaitingId, NotifyAction::CreateId);
            }
        },
        NotifyStage::AwaitingId => {
            if let NotifyEvent::IdCreated { result } = event {
                if result == 0 {
                    return (NotifyStage::AwaitingAdd, NotifyAction::Add);
                }
                return (
                    NotifyStage::Finished,
                    NotifyAction::Report { fault: NotifyFault::NoId { result } },
                );
            }
        },
        NotifyStage::AwaitingAdd => {
            if let NotifyEvent::Added { status } = event {
                if status != 0 {
                    return (NotifyStage::Displayed, NotifyAction::Wait { millis: DISPLAY_MILLIS });
                }
                return (NotifyStage::Finished, NotifyAction::Report { fault: NotifyFault::NotShown });
            }
        },
        NotifyStage::Displayed => {
            if let NotifyEvent::Elapsed = event {
                return (NotifyStage::AwaitingRemove, NotifyAction::Remove);
            }
        },
        NotifyStage::AwaitingRemove => {
            if let NotifyEvent::Removed { status } = event {
                if status != 0 {
                    return (NotifyStage::Finished, NotifyAction::Stop);
                }
                return (
                    NotifyStage::Finished,
                    NotifyAction::Report { fault: NotifyFault::NotRemoved },
                );
            }
        },
        NotifyStage::Finished => {},
    }
    (NotifyStage::Finished, NotifyAction::Stop)
}

/// How far a stage is along the way of a delivery.
pub open spec fn stage_rank(stage: NotifyStage) -> nat {
    match stage {
        NotifyStage::Pending => 0,
        NotifyStage::AwaitingId => 1,
        NotifyStage::AwaitingAdd => 2,
        NotifyStage::Displayed => 3,
        NotifyStage::AwaitingRemove => 4,
        NotifyStage::Finished => 5,
    }
}

/// The stage in which a run of events leaves a delivery.
pub open spec fn notify_stage_after(stage: NotifyStage, events: Seq<NotifyEvent>) -> NotifyStage
    decreases events.len(),
{
    if events.len() == 0 {
        stage
    } else {
        notify_stage_after(notify_next(stage, events.first()).0, events.drop_first())
    }
}

/// The actions that a delivery draws from a run of events, one for each event.
pub open spec fn notify_actions(stage: NotifyStage, events: Seq<NotifyEvent>) -> Seq<NotifyAction>
    decreases events.len(),
{
    if events.len() == 0 {
        Seq::empty()
    } else {
        let next = notify_next(stage, events.first());
        seq![next.1] + notify_actions(next.0, events.drop_first())
    }
}

/// Every step moves a delivery on, and each request to the system belongs to
/// one stage: the notification is handed over only once there is an
/// identifier, its time starts only once it is shown and is always
/// [`DISPLAY_MILLIS`], and it is taken down only once that time has passed. A
/// fault ends the delivery, and a delivery that is over asks for nothing more.
pub proof fn lemma_delivery_advances(stage: NotifyStage, event: NotifyEvent)
    ensures
        ({
            let next = notify_next(stage, event);
            &&& stage is Finished ==> next == (NotifyStage::Finished, NotifyAction::Stop)
            &&& !(stage is Finished) ==> stage_rank(next.0) > stage_rank(stage)
            &&& next.1 is CreateId ==> stage is Pending
            &&& next.1 is Add ==> stage is AwaitingId && next.0 is AwaitingAdd
            &&& next.1 is Wait ==> stage is AwaitingAdd && next.0 is Displayed && next.1
                == NotifyAction::Wait { millis: DISPLAY_MILLIS }
            &&& next.1 is Remove ==> stage is Displayed && event is Elapsed && next.0
                is AwaitingRemove
            &&& (next.1 is Report || next.1 is Stop) ==> next.0 is Finished
        }),
{
}

/// No delivery takes more than five steps.
pub proof fn lemma_delivery_ends(stage: NotifyStage, events: Seq<NotifyEvent>)
    ensures
        stage_rank(notify_stage_after(stage, events)) >= stage_rank(stage),
        stage_rank(stage) + events.len() >= 5 ==> notify_stage_after(stage, events) is Finished,
    decreases events.len(),
{
    if events.len() > 0 {
        lemma_delivery_advances(stage, events.first());
        lemma_delivery_ends(notify_next(stage, events.first()).0, events.drop_first());
    }
}

/// Where the system grants every request, a delivery asks for an identifier,
/// shows the notification, lets its time pass, takes it down and stops.
pub proof fn lemma_delivery_in_full(added: i32, removed: i32)
    requires
        added != 0,
        removed != 0,
    ensures
        notify_actions(
            NotifyStage::Pending,
            seq![
                NotifyEvent::Started,
                NotifyEvent::IdCreated { result: 0 },
                NotifyEvent::Added { status: added },
                NotifyEvent::Elapsed,
                NotifyEvent::Removed { status: removed },
            ],
        ) == seq![
            NotifyAction::CreateId,
            NotifyAction::Add,
            NotifyAction::Wait { millis: DISPLAY_MILLIS },
            NotifyAction::Remove,
            NotifyAction::Stop,
        ],
{
    reveal_with_fuel(notify_actions, 6);
}

} // verus!
