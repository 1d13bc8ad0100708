//! The RichTap vendor service: it turns RichTap requests into the same
//! motor actions the standard service uses.

use vstd::prelude::*;
use crate::effects::{self, route_actions, route_of};
use crate::envelope::{self, EnvelopePlan};
use crate::he::{self, HePlan};
use crate::he_playback::{looped_steps, timed_steps, times_fit};
use crate::output::{Action, Amplitude, Ratio};

verus! {

/// The click played for an effect the hardware has no waveform for.
pub const FALLBACK_CLICK_MS: u32 = 10;
/// How long a real-time playback request runs the motor.
pub const RTP_MS: u32 = 50;

/// How the RichTap service answers `perform` of `effect`: the effect's
/// duration after playing its route, or a plain 10 ms click.
pub open spec fn richtap_perform_result(effect: i32) -> (i32, Seq<Action>) {
    match route_of(effect) {
        Some(r) => (r.duration as i32, route_actions(r)),
        None => (FALLBACK_CLICK_MS as i32, seq![Action::On(FALLBACK_CLICK_MS)]),
    }
}

/// Setting the amplitude to `numerator / denominator`.
pub open spec fn amplitude_actions(numerator: i32, denominator: i32) -> Seq<Action> {
    seq![Action::SetAmplitude(Amplitude::Ratio(Ratio { numerator, denominator }))]
}

/// The requests of the RichTap service.
#[derive(Clone, Copy, Debug, PartialEq, Eq, Structural)]
pub enum Request {
    Init,
    SetDynamicScale,
    SetF0,
    Stop,
    SetAmplitude,
    PerformHeParam,
    Off,
    On,
    Perform,
    PerformEnvelope,
    PerformRtp,
    PerformHe,
}

/// Whether a request starts a new command, ending any playback of an
/// earlier one: every request that drives the motor does; setup and
/// amplitude or parameter updates do not.
pub open spec fn starts_command(request: Request) -> bool {
    match request {
        Request::Init | Request::SetDynamicScale | Request::SetF0 | Request::SetAmplitude
        | Request::PerformHeParam => false,
        _ => true,
    }
}

/// Whether `request` starts a new command (see `starts_command`).
pub fn cancels_playback(request: Request) -> (cancels: bool)
    ensures
        cancels == starts_command(request),
{
    match request {
        Request::Init | Request::SetDynamicScale | Request::SetF0 | Request::SetAmplitude
        | Request::PerformHeParam => false,
        _ => true,
    }
}

/// The RichTap vendor service.
pub struct RichtapTranslator;

fn set_ratio(numerator: i32, denominator: i32) -> (actions: Vec<Action>)
    ensures
        actions@ == amplitude_actions(numerator, denominator),
{
    let mut actions = Vec::new();
    actions.push(Action::SetAmplitude(Amplitude::Ratio(Ratio { numerator, denominator })));
    actions
}

fn single(action: Action) -> (actions: Vec<Action>)
    ensures
        actions@ == seq![action],
{
    let mut actions = Vec::new();
    actions.push(action);
    actions
}

impl RichtapTranslator {
    /// The service.
    pub fn new() -> Self {
        RichtapTranslator
    }

    /// Sets the amplitude to `scale` percent.
    pub fn set_dynamic_scale(&self, scale: i32) -> (actions: Vec<Action>)
        ensures
            actions@ == amplitude_actions(scale, 100),
            actions@.len() == 1,
            actions@[0] == Action::SetAmplitude(Amplitude::Ratio(Ratio { numerator: scale, denominator: 100 })),
    {
        set_ratio(scale, 100)
    }

    /// Sets the amplitude to `amplitude / 255`.
    pub fn set_amplitude(&self, amplitude: i32) -> (actions: Vec<Action>)
        ensures
            actions@ == amplitude_actions(amplitude, 255),
            actions@.len() == 1,
            actions@[0] == Action::SetAmplitude(Amplitude::Ratio(Ratio { numerator: amplitude, denominator: 255 })),
    {
        set_ratio(amplitude, 255)
    }

    /// Of a haptic-effect parameter update, applies the amplitude,
    /// `amplitude / 255`.
    pub fn perform_he_param(&self, interval: i32, amplitude: i32, freq: i32) -> (actions: Vec<Action>)
        ensures
            actions@ == amplitude_actions(amplitude, 255),
            actions@.len() == 1,
            actions@[0] == Action::SetAmplitude(Amplitude::Ratio(Ratio { numerator: amplitude, denominator: 255 })),
    {
        set_ratio(amplitude, 255)
    }

    /// Stops the motor.
    pub fn stop(&self) -> (actions: Vec<Action>)
        ensures
            actions@ == seq![Action::Off],
    {
        single(Action::Off)
    }

    /// Stops the motor.
    pub fn off(&self) -> (actions: Vec<Action>)
        ensures
            actions@ == seq![Action::Off],
    {
        single(Action::Off)
    }

    /// Runs the motor for `timeout_ms`, taken as an unsigned number.
    pub fn on(&self, timeout_ms: i32) -> (actions: Vec<Action>)
        ensures
            actions@ == seq![Action::On(timeout_ms as u32)],
    {
        single(Action::On(#[verifier::truncate] (timeout_ms as u32)))
    }

    /// Plays `effect` with its waveform and answers its duration; an
    /// effect without a waveform gets a 10 ms click and the answer 10.
    pub fn perform(&self, effect: i32) -> (r: (i32, Vec<Action>))
        ensures
            r.0 == richtap_perform_result(effect).0,
            r.1@ == richtap_perform_result(effect).1,
    {
        match effects::route(effect) {
            Some(route) => (route.duration as i32, effects::play_route(route)),
            None => (FALLBACK_CLICK_MS as i32, single(Action::On(FALLBACK_CLICK_MS))),
        }
    }

    /// A real-time playback request runs the motor for 50 ms.
    pub fn perform_rtp(&self) -> (actions: Vec<Action>)
        ensures
            actions@ == seq![Action::On(RTP_MS)],
    {
        single(Action::On(RTP_MS))
    }

    /// Plans an envelope request of the command numbered `sequence`
    /// (see `envelope::perform_envelope`).
    pub fn perform_envelope(&self, env: &[i32], sequence: usize) -> (plan: EnvelopePlan)
        ensures
            !envelope::envelope_valid(env@) ==> (plan matches EnvelopePlan::Immediate(actions)
                && actions@ == seq![Action::On(10)]),
            envelope::envelope_valid(env@) && envelope::envelope_points(env@).last().time <= envelope::TAP_MAX_MS
                ==> (plan matches EnvelopePlan::Immediate(actions) && actions@ == seq![
                    Action::SetAmplitude(Amplitude::Ratio(Ratio { numerator: 7, denominator: 10 })),
                    Action::On(10),
                ]),
            envelope::envelope_valid(env@) && envelope::envelope_points(env@).last().time > envelope::TAP_MAX_MS
                ==> (plan matches EnvelopePlan::Playback(player) && {
                    &&& player.points() == envelope::envelope_points(env@)
                    &&& player.sequence() == sequence
                    &&& player.checks_sequence()
                    &&& player.remaining() == envelope::envelope_steps(envelope::envelope_points(env@), 0, 0)
                }),
    {
        envelope::perform_envelope(env, sequence)
    }

    /// Plans a haptic-effect request of the command numbered `sequence`
    /// (see `he::perform_he`).
    pub fn perform_he(&self, looper: i32, interval: i32, amplitude: i32, pattern: &[i32], sequence: usize) -> (plan: HePlan)
        requires
            he::pattern_admissible(pattern@),
        ensures
            pattern@.len() <= he::SHORT_PATTERN_MAX ==> (plan matches HePlan::Immediate(actions) && actions@ == seq![
                Action::SetAmplitude(Amplitude::Ratio(he::base_ratio(amplitude))),
                Action::On(he::short_duration(interval, pattern@)),
            ]),
            pattern@.len() > he::SHORT_PATTERN_MAX ==> (plan matches HePlan::Playback(player) && {
                let events = he::pattern_events(pattern@);
                &&& player.events() == events
                &&& player.loops() == he::loop_count(looper)
                &&& player.pass_length() == he::pass_length(events)
                &&& player.base() == he::base_ratio(amplitude)
                &&& player.sequence() == sequence
                &&& player.checks_sequence()
                &&& player.remaining() == timed_steps(events, he::loop_count(looper), he::pass_length(events),
                    he::base_ratio(amplitude), 0, 0, 0)
                &&& times_fit(events, he::loop_count(looper), he::pass_length(events))
                    ==> player.remaining() == looped_steps(events, he::loop_count(looper), he::base_ratio(amplitude))
            }),
    {
        he::perform_he(looper, interval, amplitude, pattern, sequence)
    }
}

/// Each amplitude request sets the amplitude exactly once, to the given
/// numerator over the request's scale, for every value: none is dropped.
pub proof fn lemma_amplitude_requests_always_set(n: i32, d: i32)
    ensures
        amplitude_actions(n, d).len() == 1,
        amplitude_actions(n, d)[0] == Action::SetAmplitude(Amplitude::Ratio(Ratio { numerator: n, denominator: d })),
{
}

/// An effect outside the waveform table is refused by the standard
/// service and played as a 10 ms click by the RichTap service.
pub proof fn lemma_unrouted_effects(effect: i32)
    requires
        !(effect == 0 || effect == 1 || effect == 2 || effect == 3 || effect == 4 || effect == 5 || effect == 21),
    ensures
        crate::vibrator::vibrator_perform_result(effect)
            == Err::<(i32, Seq<Action>), crate::output::HalError>(
                crate::output::HalError::ServiceSpecific(-1i32)),
        richtap_perform_result(effect) == (10i32, seq![Action::On(10)]),
{
}

/// Both services play an effect with a waveform the same way and answer
/// the same duration; they differ only on effects without one, which the
/// standard service refuses and the RichTap service clicks for 10 ms.
pub proof fn lemma_services_agree_on_routed_effects(effect: i32)
    ensures
        route_of(effect) is Some ==> crate::vibrator::vibrator_perform_result(effect)
            == Ok::<(i32, Seq<Action>), crate::output::HalError>(richtap_perform_result(effect)),
        route_of(effect) is None ==> crate::vibrator::vibrator_perform_result(effect)
            == Err::<(i32, Seq<Action>), crate::output::HalError>(crate::vibrator::unsupported())
            && richtap_perform_result(effect) == (10i32, seq![Action::On(10)]),
{
}

} // verus!
