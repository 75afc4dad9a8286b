//! A two-state heater controller with hysteresis.

use crate::deadband::{Boundary, Deadband, DeadbandComparisonResult};
use core::ops::{Add, Sub};
use vstd::prelude::*;
use vstd::std_specs::cmp::PartialOrdSpec;
use vstd::std_specs::ops::{AddSpec, SubSpec};

verus! {

/// A one-shot instruction for the heater output.
///
/// The absence of an action means that the output stays as it was last set.
#[derive(Copy, Clone, PartialEq, Eq, Structural, Debug)]
pub enum Action {
    /// The reading is below the band: switch the heater on.
    EnableHeater,
    /// The reading is above the band: switch the heater off.
    DisableHeater,
}

/// The action that a classification of the current reading calls for.
pub open spec fn action_of(class: DeadbandComparisonResult) -> Option<Action> {
    match class {
        DeadbandComparisonResult::Low => Some(Action::EnableHeater),
        DeadbandComparisonResult::High => Some(Action::DisableHeater),
        DeadbandComparisonResult::Hold => None,
    }
}

/// Bang-bang thermostat policy over readings of type `T`.
///
/// The controller owns a tolerance, fixed at construction, and the band
/// around the current setpoint, if there is one. It does not remember the
/// state of the heater: that lives with whoever applies the actions.
pub struct Controller<T> {
    tolerance: T,
    target_temp: Option<Deadband<T>>,
}

impl<T> Controller<T> {
    /// Half the width of the band around a setpoint.
    pub closed spec fn tolerance(&self) -> T {
        self.tolerance
    }

    /// The band around the current setpoint; `None` while the controller is
    /// disabled.
    pub closed spec fn target(&self) -> Option<Deadband<T>> {
        self.target_temp
    }
}

impl<T: Copy + PartialOrd + Add<Output = T> + Sub<Output = T>> Controller<T> {
    /// `band` is the closed interval from `setpoint - tolerance` to
    /// `setpoint + tolerance`. Its ends are included in any case; their
    /// values are stated where `-` and `+` on `T` compute `sub_spec` and
    /// `add_spec`.
    pub open spec fn is_band_around(band: Deadband<T>, setpoint: T, tolerance: T) -> bool {
        &&& band.lower() is Included
        &&& band.upper() is Included
        &&& T::obeys_sub_spec() ==> band.lower() == Boundary::Included(
            setpoint.sub_spec(tolerance),
        )
        &&& T::obeys_add_spec() ==> band.upper() == Boundary::Included(
            setpoint.add_spec(tolerance),
        )
    }

    /// The controller is enabled, with its band around `setpoint`.
    pub open spec fn is_set_to(&self, setpoint: T) -> bool {
        &&& self.target() matches Some(band)
        &&& Self::is_band_around(band, setpoint, self.tolerance())
    }

    /// The action that the band, if there is one, calls for on
    /// `current_temp`.
    pub open spec fn action_for(&self, current_temp: T) -> Option<Action> {
        match self.target() {
            Some(band) => action_of(band.classify(&current_temp)),
            None => None,
        }
    }

    /// A disabled controller with the given tolerance.
    pub fn new(tolerance: T) -> (controller: Self)
        ensures
            controller.tolerance() == tolerance,
            controller.target() is None,
    {
        Controller { tolerance, target_temp: None }
    }

    /// Replaces the setpoint.
    ///
    /// `None` disables the controller. `Some(value)` makes the band
    /// `[value - tolerance, value + tolerance]`, both ends included, and
    /// nothing of an earlier band remains. The tolerance never changes.
    pub fn set_target_temp(&mut self, value: Option<T>)
        requires
            value matches Some(setpoint) ==> setpoint.sub_req(old(self).tolerance())
                && setpoint.add_req(old(self).tolerance()),
        ensures
            final(self).tolerance() == old(self).tolerance(),
            value is None <==> final(self).target() is None,
            value matches Some(setpoint) ==> final(self).is_set_to(setpoint),
    {
        self.target_temp = match value {
            Some(setpoint) => Some(
                Deadband::new(
                    Boundary::Included(setpoint - self.tolerance),
                    Boundary::Included(setpoint + self.tolerance),
                ),
            ),
            None => None,
        };
    }

    /// The action for the current reading.
    ///
    /// A disabled controller never acts, whatever the order of `T` does. An
    /// enabled one switches the heater on below the band and off above it,
    /// and does nothing inside: where the comparisons of `T` answer as
    /// `partial_cmp_spec` does, the result is exactly `action_for`. The
    /// controller itself is left unchanged.
    pub fn update(&self, current_temp: T) -> (action: Option<Action>)
        ensures
            self.target() is None ==> action is None,
            T::obeys_partial_cmp_spec() ==> action == self.action_for(current_temp),
    {
        match &self.target_temp {
            Some(band) => match band.compare(&current_temp) {
                DeadbandComparisonResult::Low => Some(Action::EnableHeater),
                DeadbandComparisonResult::High => Some(Action::DisableHeater),
                DeadbandComparisonResult::Hold => None,
            },
            None => None,
        }
    }
}

impl<T: Copy + PartialOrd + Add<Output = T> + Sub<Output = T>> Controller<T> {
    /// A reading inside the band calls for no action, however often it is
    /// presented: the answer depends on the band and the reading alone.
    pub proof fn lemma_in_band_no_action(self, reading: T)
        requires
            self.target() matches Some(band) && band.classify(&reading)
                == DeadbandComparisonResult::Hold,
        ensures
            self.action_for(reading) is None,
    {
    }

    /// A disabled controller calls for no action, whatever the reading.
    pub proof fn lemma_disabled_no_action(self, reading: T)
        requires
            self.target() is None,
        ensures
            self.action_for(reading) is None,
    {
    }

    /// A setpoint leaves no trace of the one before it: two controllers of
    /// the same tolerance that were last set to the same setpoint have the
    /// same band and answer every reading alike, whatever they were set to
    /// earlier.
    pub proof fn lemma_setpoint_replaced(self, other: Self, setpoint: T, reading: T)
        requires
            T::obeys_add_spec(),
            T::obeys_sub_spec(),
            self.tolerance() == other.tolerance(),
            self.is_set_to(setpoint),
            other.is_set_to(setpoint),
        ensures
            self.target() == other.target(),
            self.action_for(reading) == other.action_for(reading),
    {
        Deadband::lemma_ends_determine(self.target().unwrap(), other.target().unwrap());
    }
}

/// The answers of a controller over whole numbers that is set to `setpoint`
/// with a tolerance that is not negative: one step below the band the heater
/// is switched on, one step above it the heater is switched off, and at the
/// setpoint and at both ends of the band nothing is done.
pub proof fn lemma_band_actions(controller: Controller<i32>, setpoint: i32)
    requires
        controller.is_set_to(setpoint),
        controller.tolerance() >= 0,
        i32::MIN < setpoint - controller.tolerance(),
        setpoint + controller.tolerance() < i32::MAX,
    ensures
        controller.action_for((setpoint - controller.tolerance() - 1) as i32) == Some(
            Action::EnableHeater,
        ),
        controller.action_for((setpoint - controller.tolerance()) as i32) is None,
        controller.action_for(setpoint) is None,
        controller.action_for((setpoint + controller.tolerance()) as i32) is None,
        controller.action_for((setpoint + controller.tolerance() + 1) as i32) == Some(
            Action::DisableHeater,
        ),
{
}

} // verus!
