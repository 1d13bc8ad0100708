//! Haptic-effect (HE) patterns: the short-pattern shortcut, the parse of
//! long patterns into timed events, and how a request is planned.

use vstd::prelude::*;
use crate::he_playback::{lemma_timed_steps_fit, looped_steps, pass_steps, timed_steps, times_fit, HePlayer};
use crate::output::{Action, Amplitude, Ratio};

verus! {

/// The marker of a waveform segment in a pattern.
pub const WAVEFORM_MARKER: i32 = 4096;
/// The marker of a prebaked effect in a pattern.
pub const PREBAKED_MARKER: i32 = 4097;
/// Patterns of at most this many entries are played at once, inline.
pub const SHORT_PATTERN_MAX: usize = 16;

/// One timed vibration of a long pattern.
#[derive(Clone, Copy, Debug, PartialEq, Eq, Structural)]
pub struct HeEvent {
    /// Start, in milliseconds from the start of the pass.
    pub rel_time: u32,
    /// How long the motor runs, in milliseconds.
    pub duration: u32,
    /// Strength in percent of the pattern's base amplitude.
    pub intensity: u32,
}

/// Whether a waveform segment starts at `idx` (its fields reach `idx + 6`).
pub open spec fn waveform_at(p: Seq<i32>, idx: int) -> bool {
    p[idx] == WAVEFORM_MARKER && idx + 6 < p.len()
}

/// Whether a prebaked effect starts at `idx` (its fields reach `idx + 3`).
pub open spec fn prebaked_at(p: Seq<i32>, idx: int) -> bool {
    p[idx] == PREBAKED_MARKER && idx + 3 < p.len()
}

/// Where the scan goes on after `idx`: past the record's size field and
/// the `size` entries it announces for a record, else to the next entry.
pub open spec fn next_index(p: Seq<i32>, idx: int) -> int {
    if waveform_at(p, idx) || prebaked_at(p, idx) {
        idx + (p[idx + 1] as usize) as int + 2
    } else {
        idx + 1
    }
}

/// The event that the record at `idx` describes, if one starts there.
pub open spec fn event_at(p: Seq<i32>, idx: int) -> Option<HeEvent> {
    if waveform_at(p, idx) {
        Some(HeEvent { rel_time: p[idx + 3] as u32, duration: p[idx + 6] as u32, intensity: p[idx + 4] as u32 })
    } else if prebaked_at(p, idx) {
        Some(HeEvent { rel_time: p[idx + 3] as u32, duration: 8, intensity: 100 })
    } else {
        None
    }
}

/// The events of `p` from entry `idx` on, in order, as they are read.
pub open spec fn scan(p: Seq<i32>, idx: int) -> Seq<HeEvent>
    decreases (if 0 <= idx < p.len() { p.len() - idx } else { 0 }),
{
    if idx < 0 || idx >= p.len() {
        Seq::empty()
    } else {
        let here = match event_at(p, idx) {
            Some(e) => seq![e],
            None => Seq::empty(),
        };
        proof {
            assert(next_index(p, idx) > idx);
        }
        here + scan(p, next_index(p, idx))
    }
}

/// Whether every position the scan reaches from `idx` fits in a `usize`.
pub open spec fn scan_fits(p: Seq<i32>, idx: int) -> bool
    decreases (if 0 <= idx < p.len() { p.len() - idx } else { 0 }),
{
    if idx < 0 || idx >= p.len() {
        true
    } else {
        next_index(p, idx) <= usize::MAX && scan_fits(p, next_index(p, idx))
    }
}

/// The events of a long pattern: its records in order, the first one
/// starting at once.
pub open spec fn pattern_events(p: Seq<i32>) -> Seq<HeEvent> {
    let s = scan(p, 0);
    if s.len() == 0 {
        s
    } else {
        s.update(0, HeEvent { rel_time: 0, ..s[0] })
    }
}

/// The end of an event's slot: its start plus its duration.
pub open spec fn event_end(e: HeEvent) -> int {
    e.rel_time + e.duration
}

/// The length of one pass of the pattern: the end of its last event's slot.
pub open spec fn pass_length(events: Seq<HeEvent>) -> int {
    if events.len() == 0 { 0 } else { event_end(events.last()) }
}

/// Whether a pattern is one the service handles without an arithmetic
/// overflow in the request itself: short, or scanned within `usize` and
/// with a pass length that fits in a `u32`.
pub open spec fn pattern_admissible(p: Seq<i32>) -> bool {
    p.len() <= SHORT_PATTERN_MAX || (scan_fits(p, 0) && pass_length(pattern_events(p)) <= u32::MAX)
}

/// Reads the events of a long pattern.
fn parse_events(pattern: &[i32]) -> (events: Vec<HeEvent>)
    requires
        scan_fits(pattern@, 0),
    ensures
        events@ == pattern_events(pattern@),
{
    let len = pattern.len();
    let mut events: Vec<HeEvent> = Vec::new();
    let mut idx: usize = 0;
    while idx < len
        invariant
            len == pattern@.len(),
            scan_fits(pattern@, idx as int),
            scan(pattern@, 0) == events@ + scan(pattern@, idx as int),
        decreases (if idx < len { len - idx } else { 0 }),
    {
        let ghost before = events@;
        let at = pattern[idx];
        let waveform = at == WAVEFORM_MARKER && len > 6 && idx < len - 6;
        let prebaked = at == PREBAKED_MARKER && len > 3 && idx < len - 3;
        assert(waveform == waveform_at(pattern@, idx as int));
        assert(prebaked == prebaked_at(pattern@, idx as int));
        if waveform || prebaked {
            let size = #[verifier::truncate] (pattern[idx + 1] as usize);
            if waveform {
                events.push(HeEvent {
                    rel_time: #[verifier::truncate] (pattern[idx + 3] as u32),
                    duration: #[verifier::truncate] (pattern[idx + 6] as u32),
                    intensity: #[verifier::truncate] (pattern[idx + 4] as u32),
                });
            } else {
                events.push(HeEvent { rel_time: #[verifier::truncate] (pattern[idx + 3] as u32), duration: 8, intensity: 100 });
            }
            assert(events@ + scan(pattern@, next_index(pattern@, idx as int))
                =~= before + scan(pattern@, idx as int));
            idx = idx + size + 2;
        } else {
            assert(events@ + scan(pattern@, next_index(pattern@, idx as int))
                =~= before + scan(pattern@, idx as int));
            idx = idx + 1;
        }
    }
    assert(events@ =~= scan(pattern@, 0));
    if events.len() > 0 {
        let first = events[0];
        events.set(0, HeEvent { rel_time: 0, ..first });
    }
    events
}

/// The amplitude of the pattern as a whole: `amplitude / 255` where the
/// request gives a positive amplitude, else full strength.
pub open spec fn base_ratio(amplitude: i32) -> Ratio {
    if amplitude > 0 {
        Ratio { numerator: amplitude, denominator: 255 }
    } else {
        Ratio { numerator: 1, denominator: 1 }
    }
}

/// How many times a long pattern is played: `looper` where positive, else once.
pub open spec fn loop_count(looper: i32) -> nat {
    if looper > 0 { looper as nat } else { 1 }
}

/// A positive looper is the number of passes played; any other plays
/// once. For events in order, the playback then waits `looper` times the
/// pass length in all.
pub proof fn lemma_looper_is_pass_count(looper: i32, events: Seq<HeEvent>, base: Ratio)
    ensures
        looper > 0 ==> loop_count(looper) == looper,
        looper <= 0 ==> loop_count(looper) == 1,
        looper > 0 && crate::he_playback::events_in_order(events) ==> crate::output::total_wait(
            looped_steps(events, loop_count(looper), base)) == looper * pass_length(events),
{
    if crate::he_playback::events_in_order(events) {
        crate::he_playback::lemma_playback_wait(events, loop_count(looper), base);
    }
}

/// A short pattern runs for an explicit positive `interval`, whatever the
/// pattern holds; without one, a pattern led by a waveform record runs for
/// that record's duration field (entry 6), whatever follows it.
pub proof fn lemma_short_duration_sources(interval: i32, p: Seq<i32>, q: Seq<i32>)
    ensures
        interval > 0 ==> short_duration(interval, p) == interval as u32,
        interval > 0 ==> short_duration(interval, p) == short_duration(interval, q),
        interval <= 0 && p.len() > 6 && p[0] == WAVEFORM_MARKER ==> short_duration(interval, p) == p[6] as u32,
        interval <= 0 && p.len() > 6 && q.len() > 6 && p.take(7) == q.take(7)
            ==> short_duration(interval, p) == short_duration(interval, q),
        interval <= 0 && p.len() > 0 && p[0] == PREBAKED_MARKER ==> short_duration(interval, p) == 8,
        interval <= 0 && p.len() == 0 ==> short_duration(interval, p) == 10,
{
    if interval <= 0 && p.len() > 6 && q.len() > 6 && p.take(7) == q.take(7) {
        assert(p[0] == p.take(7)[0] && q[0] == q.take(7)[0]);
        assert(p[6] == p.take(7)[6] && q[6] == q.take(7)[6]);
    }
}

/// A looper of 0 or less plays the pattern exactly once: the playback is
/// one pass.
pub proof fn lemma_nonpositive_looper_plays_once(looper: i32, events: Seq<HeEvent>, base: Ratio)
    requires
        looper <= 0,
    ensures
        loop_count(looper) == 1,
        looped_steps(events, loop_count(looper), base) == pass_steps(events, 0, 0, base),
{
    assert(looped_steps(events, 0, base) =~= Seq::<crate::output::Step>::empty());
    assert(looped_steps(events, 1, base) =~= pass_steps(events, 0, 0, base) + looped_steps(events, 0, base));
}

/// Whether `pattern` is scanned with every position inside a `usize` and
/// a pass length inside a `u32`, as `perform_he` needs of a long pattern.
pub fn admissible_pattern(pattern: &[i32]) -> (ok: bool)
    ensures
        ok == pattern_admissible(pattern@),
{
    let len = pattern.len();
    if len <= SHORT_PATTERN_MAX {
        return true;
    }
    let mut idx: usize = 0;
    while idx < len
        invariant
            len == pattern@.len(),
            len > SHORT_PATTERN_MAX,
            scan_fits(pattern@, 0) == scan_fits(pattern@, idx as int),
        decreases (if idx < len { len - idx } else { 0 }),
    {
        let at = pattern[idx];
        let waveform = at == WAVEFORM_MARKER && len > 6 && idx < len - 6;
        let prebaked = at == PREBAKED_MARKER && len > 3 && idx < len - 3;
        assert(waveform == waveform_at(pattern@, idx as int));
        assert(prebaked == prebaked_at(pattern@, idx as int));
        if waveform || prebaked {
            let size = #[verifier::truncate] (pattern[idx + 1] as usize);
            let ghost next = next_index(pattern@, idx as int);
            match idx.checked_add(size) {
                None => {
                    assert(!scan_fits(pattern@, idx as int));
                    return false;
                },
                Some(j) => match j.checked_add(2) {
                    None => {
                        assert(!scan_fits(pattern@, idx as int));
                        return false;
                    },
                    Some(k) => {
                        assert(scan_fits(pattern@, idx as int) == scan_fits(pattern@, next));
                        idx = k;
                    },
                },
            }
        } else {
            assert(scan_fits(pattern@, idx as int) == scan_fits(pattern@, idx + 1));
            idx = idx + 1;
        }
    }
    let events = parse_events(pattern);
    let n = events.len();
    if n == 0 {
        true
    } else {
        let last = events[n - 1];
        (last.rel_time as u64) + (last.duration as u64) <= 0xffff_ffffu64
    }
}

/// How the service answers a haptic-effect request.
pub enum HePlan {
    /// A short pattern: these actions, at once.
    Immediate(Vec<Action>),
    /// A long pattern: a playback to run beside the service.
    Playback(HePlayer),
}

/// How long a short pattern runs: an explicit positive `interval` first;
/// else the duration field of a leading waveform segment; else 8 ms for a
/// leading prebaked effect; else a 10 ms tick.
pub open spec fn short_duration(interval: i32, p: Seq<i32>) -> u32 {
    if interval > 0 {
        interval as u32
    } else if p.len() > 6 && p[0] == WAVEFORM_MARKER {
        p[6] as u32
    } else if p.len() > 0 && p[0] == PREBAKED_MARKER {
        8
    } else {
        10
    }
}

/// Plans a haptic-effect request of the command numbered `sequence`.
/// A pattern of at most 16 entries sets the base amplitude and runs the
/// motor once; a longer one is played, `looper` times, by a playback.
pub fn perform_he(looper: i32, interval: i32, amplitude: i32, pattern: &[i32], sequence: usize) -> (plan: HePlan)
    requires
        pattern_admissible(pattern@),
    ensures
        pattern@.len() <= SHORT_PATTERN_MAX ==> (plan matches HePlan::Immediate(actions) && actions@ == seq![
            Action::SetAmplitude(Amplitude::Ratio(base_ratio(amplitude))),
            Action::On(short_duration(interval, pattern@)),
        ]),
        pattern@.len() > SHORT_PATTERN_MAX ==> (plan matches HePlan::Playback(player) && {
            let events = pattern_events(pattern@);
            &&& player.events() == events
            &&& player.loops() == loop_count(looper)
            &&& player.pass_length() == pass_length(events)
            &&& player.base() == base_ratio(amplitude)
            &&& player.sequence() == sequence
            &&& player.checks_sequence()
            &&& player.remaining() == timed_steps(events, loop_count(looper), pass_length(events),
                base_ratio(amplitude), 0, 0, 0)
            &&& times_fit(events, loop_count(looper), pass_length(events))
                ==> player.remaining() == looped_steps(events, loop_count(looper), base_ratio(amplitude))
        }),
        pattern@.len() > SHORT_PATTERN_MAX && looper > 0
            ==> (plan matches HePlan::Playback(player) && player.loops() == looper),
        pattern@.len() > SHORT_PATTERN_MAX && looper <= 0
            ==> (plan matches HePlan::Playback(player) && player.loops() == 1),
        pattern@.len() <= SHORT_PATTERN_MAX && interval > 0
            ==> (plan matches HePlan::Immediate(actions) && actions@[1] == Action::On(interval as u32)),
        pattern@.len() <= SHORT_PATTERN_MAX && interval <= 0 && pattern@.len() > 6
            && pattern@[0] == WAVEFORM_MARKER
            ==> (plan matches HePlan::Immediate(actions) && actions@[1] == Action::On(pattern@[6] as u32)),
{
    let base = if amplitude > 0 {
        Ratio { numerator: amplitude, denominator: 255 }
    } else {
        Ratio { numerator: 1, denominator: 1 }
    };
    let len = pattern.len();
    if len <= SHORT_PATTERN_MAX {
        let mut duration: u32 = if interval > 0 { interval as u32 } else { 10 };
        if len > 0 && interval <= 0 {
            if pattern[0] == WAVEFORM_MARKER && len > 6 {
                duration = #[verifier::truncate] (pattern[6] as u32);
            } else if pattern[0] == PREBAKED_MARKER {
                duration = 8;
            }
        }
        let mut actions = Vec::new();
        actions.push(Action::SetAmplitude(Amplitude::Ratio(base)));
        actions.push(Action::On(duration));
        return HePlan::Immediate(actions);
    }
    let events = parse_events(pattern);
    let loops: usize = if looper > 0 { looper as usize } else { 1 };
    let n = events.len();
    let pass: u32 = if n == 0 {
        0
    } else {
        events[n - 1].rel_time + events[n - 1].duration
    };
    proof {
        if times_fit(events@, loops as nat, pass as int) {
            lemma_timed_steps_fit(events@, loops as nat, pass as int, base);
        }
    }
    HePlan::Playback(HePlayer::new(events, loops, pass, base, sequence))
}

} // verus!
