//! The two scalars that the tray controller and the drift monitor share.

use vstd::prelude::*;

verus! {

/// Whether the drift monitor acts on its ticks.
#[derive(Clone, Copy, Debug, PartialEq, Eq, Structural)]
pub enum Mode {
    /// The monitor reads the live speed on every tick and corrects drift.
    Active,
    /// The monitor leaves the system alone.
    Idle,
}

/// The shared state: the pinning switch and the speed that is pinned.
#[derive(Clone, Copy, Debug, PartialEq, Eq, Structural)]
pub struct PinState {
    /// Set while pinning is switched on.
    pub enabled: bool,
    /// The speed that the monitor restores.
    pub desired_speed: u8,
}

impl PinState {
    /// The state of a fresh process: pinning is on and no speed is known yet.
    pub open spec fn initial() -> PinState {
        PinState { enabled: true, desired_speed: 0 }
    }

    /// The mode that the switch selects.
    pub open spec fn spec_mode(self) -> Mode {
        if self.enabled {
            Mode::Active
        } else {
            Mode::Idle
        }
    }

    /// The state of a fresh process.
    pub fn new() -> (state: PinState)
        ensures
            state == PinState::initial(),
    {
        PinState { enabled: true, desired_speed: 0 }
    }

    /// The mode that the switch selects.
    #[verifier::when_used_as_spec(spec_mode)]
    pub fn mode(self) -> (mode: Mode)
        ensures
            mode == self.spec_mode(),
    {
        if self.enabled {
            Mode::Active
        } else {
            Mode::Idle
        }
    }
}

impl Default for PinState {
    fn default() -> (state: PinState)
        ensures
            state == PinState::initial(),
    {
        PinState::new()
    }
}

} // verus!
