//! The pointer speed as the system reports and takes it.
//!
//! The system answers both requests with a status, where zero means that it
//! refused. These functions say what such an answer amounts to; the requests
//! themselves are made by the caller.

use crate::decimal::{push_signed_decimal, signed_decimal};
use vstd::prelude::*;

verus! {

/// The system refused to take a new pointer speed.
#[derive(Clone, Copy, Debug, PartialEq, Eq, Structural)]
pub struct SetSpeedError {
    /// The status with which the system answered.
    pub status: i32,
}

impl SetSpeedError {
    /// The words that describe the failure, for the log.
    pub open spec fn spec_message(&self) -> Seq<char> {
        "Failed to set mouse speed, return code was "@ + signed_decimal(self.status as int)
    }

    /// The words that describe the failure, for the log.
    pub fn message(&self) -> (text: String)
        ensures
            text@ == self.spec_message(),
    {
        let mut text = "Failed to set mouse speed, return code was ".to_owned();
        push_signed_decimal(&mut text, self.status);
        text
    }
}

/// The pointer speed that a query found: `value` is what the system stored
/// and `status` what it answered. A refused query has no speed, whatever was
/// stored; it never counts as a speed of zero.
pub fn get_mouse_speed(status: i32, value: u8) -> (speed: Option<u8>)
    ensures
        speed == (if status == 0 {
            None
        } else {
            Some(value)
        }),
{
    if status == 0 {
        None
    } else {
        Some(value)
    }
}

/// The outcome of a request to set the pointer speed that the system answered
/// with `status`.
pub fn set_mouse_speed(status: i32) -> (outcome: Result<(), SetSpeedError>)
    ensures
        outcome == (if status == 0 {
            Err::<(), SetSpeedError>(SetSpeedError { status })
        } else {
            Ok::<(), SetSpeedError>(())
        }),
{
    if status == 0 {
        Err(SetSpeedError { status })
    } else {
        Ok(())
    }
}

} // verus!
