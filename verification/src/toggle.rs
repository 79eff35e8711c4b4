//! The per-entity switch that turns sensing and driving on and off.

use vstd::prelude::*;

verus! {

/// Whether the controller of an entity senses its surroundings and whether
/// it drives the body.
#[derive(Clone, Copy, Debug, PartialEq, Eq, Structural)]
pub enum Toggle {
    /// Sensors are not updated and no force is applied.
    Disabled,
    /// Sensors are updated, but no force is applied.
    SenseOnly,
    /// Sensors are updated and the motor drives the body.
    Enabled,
}

impl Toggle {
    /// Whether sensors run under this toggle.
    pub open spec fn senses(self) -> bool {
        self != Toggle::Disabled
    }

    /// Whether the motor drives the body under this toggle.
    pub open spec fn drives(self) -> bool {
        self == Toggle::Enabled
    }

    /// The toggle in force for an entity: the attached one, or `Enabled`
    /// where none is attached.
    pub open spec fn effective(attached: Option<Toggle>) -> Toggle {
        match attached {
            Some(toggle) => toggle,
            None => Toggle::Enabled,
        }
    }

    /// The toggle in force for an entity: the attached one, or `Enabled`
    /// where none is attached.
    pub fn or_enabled(attached: Option<Toggle>) -> (toggle: Toggle)
        ensures
            toggle == Toggle::effective(attached),
    {
        match attached {
            Some(toggle) => toggle,
            None => Toggle::Enabled,
        }
    }

    /// Whether sensors run under this toggle.
    pub fn runs_sensors(self) -> (yes: bool)
        ensures
            yes == self.senses(),
    {
        match self {
            Toggle::Disabled => false,
            Toggle::SenseOnly => true,
            Toggle::Enabled => true,
        }
    }

    /// Whether the motor drives the body under this toggle.
    pub fn runs_motor(self) -> (yes: bool)
        ensures
            yes == self.drives(),
    {
        match self {
            Toggle::Disabled => false,
            Toggle::SenseOnly => false,
            Toggle::Enabled => true,
        }
    }
}

impl Default for Toggle {
    fn default() -> (toggle: Toggle)
        ensures
            toggle == Toggle::Enabled,
    {
        Toggle::Enabled
    }
}

} // verus!
