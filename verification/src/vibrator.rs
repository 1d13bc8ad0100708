//! The standard vibrator service: on/off, effects, capabilities.

use vstd::prelude::*;
use crate::effects::{self, route_actions, route_of};
use crate::output::{Action, HalError, UNSUPPORTED_CODE};

verus! {

/// The service calls back when an `on` ends.
pub const CAP_ON_CALLBACK: i32 = 1;
/// The service calls back when a `perform` ends.
pub const CAP_PERFORM_CALLBACK: i32 = 2;
/// The service sets the amplitude.
pub const CAP_AMPLITUDE_CONTROL: i32 = 4;

/// The answer to a refused request.
pub open spec fn unsupported() -> HalError {
    HalError::ServiceSpecific(UNSUPPORTED_CODE)
}

/// How the standard service answers `perform` of `effect`: the effect's
/// duration, after playing its route; a refusal for an effect without one.
pub open spec fn vibrator_perform_result(effect: i32) -> Result<(i32, Seq<Action>), HalError> {
    match route_of(effect) {
        Some(r) => Ok((r.duration as i32, route_actions(r))),
        None => Err(unsupported()),
    }
}

/// The effects the standard service lists as supported.
pub open spec fn supported_effects() -> Seq<i32> {
    seq![effects::CLICK, effects::DOUBLE_CLICK, effects::TICK, effects::THUD, effects::POP, effects::HEAVY_CLICK]
}

/// The standard vibrator service. It knows whether the driver has a
/// `gain` node, that is, whether it controls the amplitude.
pub struct VibratorService {
    support_gain: bool,
}

impl VibratorService {
    /// Whether the driver controls the amplitude.
    pub closed spec fn has_gain(&self) -> bool {
        self.support_gain
    }

    /// The service, for a driver with (`support_gain`) or without a `gain` node.
    pub fn new(support_gain: bool) -> (s: Self)
        ensures
            s.has_gain() == support_gain,
    {
        VibratorService { support_gain }
    }

    /// The capabilities: the two callbacks (bits 0 and 1) always, amplitude
    /// control (bit 2) where the driver has a `gain` node.
    pub fn get_capabilities(&self) -> (caps: i32)
        ensures
            caps == (if self.has_gain() { 7i32 } else { 3i32 }),
            caps & CAP_ON_CALLBACK != 0,
            caps & CAP_PERFORM_CALLBACK != 0,
            (caps & CAP_AMPLITUDE_CONTROL != 0) == self.has_gain(),
    {
        let mut caps = CAP_ON_CALLBACK | CAP_PERFORM_CALLBACK;
        assert(1i32 | 2i32 == 3i32) by (bit_vector);
        if self.support_gain {
            caps = caps | CAP_AMPLITUDE_CONTROL;
            assert(3i32 | 4i32 == 7i32) by (bit_vector);
        }
        assert(7i32 & 1i32 != 0 && 7i32 & 2i32 != 0 && 7i32 & 4i32 != 0) by (bit_vector);
        assert(3i32 & 1i32 != 0 && 3i32 & 2i32 != 0 && 3i32 & 4i32 == 0) by (bit_vector);
        caps
    }

    /// Whether a requested amplitude is applied: only where the driver
    /// controls the amplitude.
    pub fn applies_amplitude(&self) -> (applies: bool)
        ensures
            applies == self.has_gain(),
    {
        self.support_gain
    }

    /// Stops the motor.
    pub fn off(&self) -> (actions: Vec<Action>)
        ensures
            actions@ == seq![Action::Off],
    {
        let mut actions = Vec::new();
        actions.push(Action::Off);
        actions
    }

    /// Runs the motor for `timeout_ms`, taken as an unsigned number.
    pub fn on(&self, timeout_ms: i32) -> (actions: Vec<Action>)
        ensures
            actions@ == seq![Action::On(timeout_ms as u32)],
    {
        let mut actions = Vec::new();
        actions.push(Action::On(#[verifier::truncate] (timeout_ms as u32)));
        actions
    }

    /// Plays `effect` with its waveform and answers its duration; refuses
    /// an effect the hardware does not play.
    pub fn perform(&self, effect: i32) -> (r: Result<(i32, Vec<Action>), HalError>)
        ensures
            match (r, vibrator_perform_result(effect)) {
                (Ok((d, actions)), Ok((sd, sactions))) => d == sd && actions@ == sactions,
                (Err(e), Err(se)) => e == se,
                _ => false,
            },
    {
        match effects::route(effect) {
            Some(r) => Ok((r.duration as i32, effects::play_route(r))),
            None => Err(HalError::ServiceSpecific(UNSUPPORTED_CODE)),
        }
    }

    /// The effects the service lists as supported.
    pub fn get_supported_effects(&self) -> (list: Vec<i32>)
        ensures
            list@ == supported_effects(),
    {
        let mut list = Vec::new();
        list.push(effects::CLICK);
        list.push(effects::DOUBLE_CLICK);
        list.push(effects::TICK);
        list.push(effects::THUD);
        list.push(effects::POP);
        list.push(effects::HEAVY_CLICK);
        list
    }

    /// External control is refused.
    pub fn set_external_control(&self, enabled: bool) -> (r: Result<(), HalError>)
        ensures
            r == Err::<(), HalError>(unsupported()),
    {
        Err(HalError::ServiceSpecific(UNSUPPORTED_CODE))
    }

    /// Compositions are refused.
    pub fn compose(&self) -> (r: Result<(), HalError>)
        ensures
            r == Err::<(), HalError>(unsupported()),
    {
        Err(HalError::ServiceSpecific(UNSUPPORTED_CODE))
    }

    /// Always-on effects are refused.
    pub fn always_on_enable(&self, id: i32, effect: i32) -> (r: Result<(), HalError>)
        ensures
            r == Err::<(), HalError>(unsupported()),
    {
        Err(HalError::ServiceSpecific(UNSUPPORTED_CODE))
    }

    /// Always-on effects are refused.
    pub fn always_on_disable(&self, id: i32) -> (r: Result<(), HalError>)
        ensures
            r == Err::<(), HalError>(unsupported()),
    {
        Err(HalError::ServiceSpecific(UNSUPPORTED_CODE))
    }

    /// Piecewise-linear compositions are refused.
    pub fn compose_pwle(&self) -> (r: Result<(), HalError>)
        ensures
            r == Err::<(), HalError>(unsupported()),
    {
        Err(HalError::ServiceSpecific(UNSUPPORTED_CODE))
    }

    /// No composition primitives are supported.
    pub fn get_supported_primitives(&self) -> (list: Vec<i32>)
        ensures
            list@.len() == 0,
    {
        Vec::new()
    }

    /// No always-on effects are supported.
    pub fn get_supported_always_on_effects(&self) -> (list: Vec<i32>)
        ensures
            list@.len() == 0,
    {
        Vec::new()
    }

    /// No braking modes are supported.
    pub fn get_supported_braking(&self) -> (list: Vec<i32>)
        ensures
            list@.len() == 0,
    {
        Vec::new()
    }

    /// No composition: its greatest delay, its greatest size, the duration
    /// of a primitive, and the limits of piecewise-linear compositions are
    /// all 0.
    pub fn composition_limit(&self) -> (limit: i32)
        ensures
            limit == 0,
    {
        0
    }
}

/// The supported effects are the ones `perform` plays: each has a route.
pub proof fn lemma_supported_effects_are_played(effect: i32)
    requires
        supported_effects().contains(effect),
    ensures
        route_of(effect) is Some,
        vibrator_perform_result(effect) is Ok,
{
    let s = supported_effects();
    let k = choose|k: int| 0 <= k < s.len() && s[k] == effect;
    assert(s[k] == effect);
}

} // verus!
