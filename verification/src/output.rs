//! What the services hand back: motor actions, amplitudes, replies.

use vstd::prelude::*;

verus! {

/// An amplitude given as `numerator / denominator`, clamped into `[0, 1]`
/// when it is applied.
#[derive(Clone, Copy, Debug, PartialEq, Eq, Structural)]
pub struct Ratio {
    pub numerator: i32,
    pub denominator: i32,
}

/// An amplitude for the motor, described by the integers it is computed
/// from; the fraction itself is formed where the drive strength is written.
#[derive(Clone, Copy, Debug, PartialEq, Eq, Structural)]
pub enum Amplitude {
    /// The ratio, clamped into `[0, 1]`.
    Ratio(Ratio),
    /// `percent / 100` times the clamped base ratio, clamped into `[0, 1]`.
    Scaled { percent: u32, base: Ratio },
}

/// One operation on the motor.
#[derive(Clone, Copy, Debug, PartialEq, Eq, Structural)]
pub enum Action {
    /// Set the drive strength, where the driver has a `gain` node.
    SetAmplitude(Amplitude),
    /// Run the motor for the given milliseconds.
    On(u32),
    /// Stop the motor.
    Off,
    /// Select a predefined waveform of the driver.
    SetIndex(u32),
}

/// One step of a timed playback.
#[derive(Clone, Copy, Debug, PartialEq, Eq, Structural)]
pub enum Step {
    /// Set the amplitude, then run the motor for `duration` milliseconds.
    Pulse { amplitude: Amplitude, duration: u32 },
    /// Stop the motor.
    Off,
    /// Wait the given milliseconds.
    Sleep(u32),
}

/// The error a refused request is answered with.
#[derive(Clone, Copy, Debug, PartialEq, Eq, Structural)]
pub enum HalError {
    /// A service-specific error with its code.
    ServiceSpecific(i32),
}

/// The service-specific code of every refused request.
pub const UNSUPPORTED_CODE: i32 = -1;

/// What a playback step does to what is left to play: without anything
/// left, it ends; otherwise it hands out the first step left.
pub open spec fn stepped(before: Seq<Step>, s: Option<Step>, after: Seq<Step>) -> bool {
    if before.len() == 0 {
        s is None && after.len() == 0
    } else {
        s == Some(before[0]) && after == before.drop_first()
    }
}

/// The milliseconds a sequence of playback steps waits, all told.
pub open spec fn total_wait(steps: Seq<Step>) -> int
    decreases steps.len(),
{
    if steps.len() == 0 {
        0
    } else {
        let rest = total_wait(steps.drop_first());
        match steps[0] {
            Step::Sleep(d) => d + rest,
            _ => rest,
        }
    }
}

/// The waits of two sequences of steps, one after the other, add up.
pub proof fn lemma_total_wait_append(a: Seq<Step>, b: Seq<Step>)
    ensures
        total_wait(a + b) == total_wait(a) + total_wait(b),
    decreases a.len(),
{
    if a.len() > 0 {
        assert((a + b).drop_first() =~= a.drop_first() + b);
        lemma_total_wait_append(a.drop_first(), b);
    } else {
        assert(a + b =~= b);
    }
}

} // verus!
