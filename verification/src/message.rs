//! What the utility tells its user, and the words it uses.

use crate::decimal::{decimal, push_decimal};
use vstd::prelude::*;
use vstd::string::StringExecFns;

verus! {

/// A notification that the utility shows.
#[derive(Clone, Copy, Debug, PartialEq, Eq, Structural)]
pub enum Message {
    /// Pinning was switched on at this speed.
    Pinned { speed: u8 },
    /// Pinning was switched off.
    Unpinned,
    /// The speed had drifted to `observed` and was put back to `desired`.
    SpeedReset { observed: u8, desired: u8 },
    /// The speed had drifted and could not be put back.
    SetFailed,
    /// Pinning could not be switched on because the speed could not be read.
    GetFailed,
}

impl Message {
    /// The words of the notification.
    pub open spec fn spec_text(&self) -> Seq<char> {
        match self {
            Message::Pinned { speed } => "Pinning cursor speed of "@ + decimal(speed as nat),
            Message::Unpinned => "Unpinned cursor speed"@,
            Message::SpeedReset { observed, desired } => "Speed was set to "@ + decimal(
                observed as nat,
            ) + ", resetting to desired speed "@ + decimal(desired as nat),
            Message::SetFailed => "Failed to set cursor speed, see the log file for more."@,
            Message::GetFailed => "Failed to get current cursor speed, see the logfile for more."@,
        }
    }

    /// Whether the notification reports that something went wrong.
    pub open spec fn spec_is_failure(&self) -> bool {
        self is SetFailed || self is GetFailed
    }

    /// The words of the notification.
    pub fn text(&self) -> (text: String)
        ensures
            text@ == self.spec_text(),
    {
        match self {
            Message::Pinned { speed } => {
                let mut text = "Pinning cursor speed of ".to_owned();
                push_decimal(&mut text, *speed as u32);
                text
            },
            Message::Unpinned => "Unpinned cursor speed".to_owned(),
            Message::SpeedReset { observed, desired } => {
                let mut text = "Speed was set to ".to_owned();
                push_decimal(&mut text, *observed as u32);
                text.append(", resetting to desired speed ");
                push_decimal(&mut text, *desired as u32);
                text
            },
            Message::SetFailed => "Failed to set cursor speed, see the log file for more.".to_owned(),
            Message::GetFailed => "Failed to get current cursor speed, see the logfile for more.".to_owned(),
        }
    }

    /// Whether the notification reports that something went wrong.
    #[verifier::when_used_as_spec(spec_is_failure)]
    pub fn is_failure(&self) -> (failure: bool)
        ensures
            failure == self.spec_is_failure(),
    {
        match self {
            Message::SetFailed => true,
            Message::GetFailed => true,
            _ => false,
        }
    }
}

} // verus!
