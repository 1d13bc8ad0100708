//! The looped playback of a long haptic-effect pattern: what it plays,
//! and a player that plays it one step at a time.

use vstd::prelude::*;
use crate::he::{event_end, pass_length, pattern_events, HeEvent};
use crate::output::{lemma_total_wait_append, stepped, total_wait, Amplitude, Ratio, Step};

verus! {

/// Running an event: the pulse at its intensity, then the wait while it runs.
pub open spec fn play_steps(e: HeEvent, base: Ratio) -> Seq<Step> {
    seq![
        Step::Pulse { amplitude: Amplitude::Scaled { percent: e.intensity, base }, duration: e.duration },
        Step::Sleep(e.duration),
    ]
}

/// An event whose predecessor's slot ended at `prev`: the wait up to its
/// start, where there is one, then the event itself.
pub open spec fn event_steps(e: HeEvent, prev: int, base: Ratio) -> Seq<Step> {
    if e.rel_time > prev {
        seq![Step::Sleep((e.rel_time - prev) as u32)] + play_steps(e, base)
    } else {
        play_steps(e, base)
    }
}

/// Where the slot of the event before event `i` ends (0 before the first).
pub open spec fn prev_end(events: Seq<HeEvent>, i: int) -> int {
    if i <= 0 { 0 } else { event_end(events[i - 1]) }
}

/// One pass over the events from event `i` on, the previous slot ending at `prev`.
pub open spec fn pass_steps(events: Seq<HeEvent>, i: int, prev: int, base: Ratio) -> Seq<Step>
    decreases (if 0 <= i < events.len() { events.len() - i } else { 0 }),
{
    if 0 <= i < events.len() {
        event_steps(events[i], prev, base) + pass_steps(events, i + 1, event_end(events[i]), base)
    } else {
        Seq::empty()
    }
}

/// The whole playback: `loops` passes, one after the other.
pub open spec fn looped_steps(events: Seq<HeEvent>, loops: nat, base: Ratio) -> Seq<Step>
    decreases loops,
{
    if loops == 0 {
        Seq::empty()
    } else {
        pass_steps(events, 0, 0, base) + looped_steps(events, (loops - 1) as nat, base)
    }
}

/// The latest end of any event's slot (0 without events).
pub open spec fn max_end(events: Seq<HeEvent>) -> int
    decreases events.len(),
{
    if events.len() == 0 {
        0
    } else {
        let m = max_end(events.drop_last());
        if event_end(events.last()) > m { event_end(events.last()) } else { m }
    }
}

/// Whether every time the playback computes, pass offset plus an event's
/// start or end, fits in a `u32`.
pub open spec fn times_fit(events: Seq<HeEvent>, loops: nat, pass: int) -> bool {
    loops == 0 || (loops - 1) * pass + max_end(events) <= u32::MAX
}

proof fn lemma_max_end(events: Seq<HeEvent>, i: int)
    requires
        0 <= i < events.len(),
    ensures
        0 <= event_end(events[i]) <= max_end(events),
    decreases events.len(),
{
    if i < events.len() - 1 {
        lemma_max_end(events.drop_last(), i);
    }
}

proof fn lemma_max_end_nonneg(events: Seq<HeEvent>)
    ensures
        max_end(events) >= 0,
    decreases events.len(),
{
    if events.len() > 0 {
        lemma_max_end_nonneg(events.drop_last());
    }
}

/// A looped playback is its pass, `loops` times over: pass `j` is the
/// stretch from `j * len` to `(j + 1) * len`, `len` being a pass's length in steps.
pub proof fn lemma_passes_repeat(events: Seq<HeEvent>, loops: nat, base: Ratio, j: int)
    requires
        0 <= j < loops,
    ensures
        looped_steps(events, loops, base).len() == loops * pass_steps(events, 0, 0, base).len(),
        looped_steps(events, loops, base).subrange(
            j * pass_steps(events, 0, 0, base).len(),
            (j + 1) * pass_steps(events, 0, 0, base).len(),
        ) == pass_steps(events, 0, 0, base),
    decreases loops,
{
    let pass = pass_steps(events, 0, 0, base);
    let len = pass.len() as int;
    let rest = looped_steps(events, (loops - 1) as nat, base);
    assert(looped_steps(events, loops, base) == pass + rest);
    if loops > 1 {
        let jj = if j > 0 { j - 1 } else { 0 };
        lemma_passes_repeat(events, (loops - 1) as nat, base, jj);
    } else {
        assert(rest =~= Seq::<Step>::empty());
    }
    assert(loops * len == len + (loops - 1) * len) by (nonlinear_arith);
    if j == 0 {
        assert(len <= loops * len) by (nonlinear_arith)
            requires
                loops >= 1,
                len >= 0;
        assert((pass + rest).subrange(0, len) =~= pass);
    } else {
        assert(j * len == len + (j - 1) * len) by (nonlinear_arith);
        assert((j + 1) * len == len + j * len) by (nonlinear_arith);
        assert((j - 1) * len >= 0 && j * len <= (loops - 1) * len) by (nonlinear_arith)
            requires
                1 <= j < loops,
                len >= 0;
        assert((pass + rest).subrange(j * len, (j + 1) * len)
            =~= rest.subrange((j - 1) * len, j * len));
    }
}

/// A long pattern's playback starts with its first event's pulse, with
/// no wait before it.
pub proof fn lemma_playback_starts_at_once(p: Seq<i32>, loops: nat, base: Ratio)
    requires
        pattern_events(p).len() > 0,
        loops >= 1,
    ensures
        looped_steps(pattern_events(p), loops, base)[0] == (Step::Pulse {
            amplitude: Amplitude::Scaled { percent: pattern_events(p)[0].intensity, base },
            duration: pattern_events(p)[0].duration,
        }),
{
    let ev = pattern_events(p);
    assert(ev[0].rel_time == 0);
    assert(pass_steps(ev, 0, 0, base)
        == event_steps(ev[0], 0, base) + pass_steps(ev, 1, event_end(ev[0]), base));
    assert(looped_steps(ev, loops, base)
        == pass_steps(ev, 0, 0, base) + looped_steps(ev, (loops - 1) as nat, base));
}

/// Whether each event starts no earlier than the previous one's slot ends.
pub open spec fn events_in_order(events: Seq<HeEvent>) -> bool {
    forall|j: int| 0 < j < events.len() ==> #[trigger] events[j].rel_time >= event_end(events[j - 1])
}

proof fn lemma_event_wait(e: HeEvent, prev: int, base: Ratio)
    requires
        0 <= prev <= e.rel_time,
    ensures
        total_wait(event_steps(e, prev, base)) == event_end(e) - prev,
{
    let play = play_steps(e, base);
    assert(play.drop_first() =~= seq![Step::Sleep(e.duration)]);
    assert(seq![Step::Sleep(e.duration)].drop_first() =~= Seq::<Step>::empty());
    assert(total_wait(Seq::<Step>::empty()) == 0);
    assert(total_wait(seq![Step::Sleep(e.duration)]) == e.duration);
    assert(total_wait(play) == e.duration);
    if e.rel_time > prev {
        let gap = seq![Step::Sleep((e.rel_time - prev) as u32)];
        assert(gap.drop_first() =~= Seq::<Step>::empty());
        assert(total_wait(gap) == e.rel_time - prev);
        lemma_total_wait_append(gap, play);
    }
}

proof fn lemma_pass_wait_from(events: Seq<HeEvent>, i: int, prev: int, base: Ratio)
    requires
        0 <= i,
        0 <= prev,
        events_in_order(events),
        i < events.len() ==> events[i].rel_time >= prev,
    ensures
        total_wait(pass_steps(events, i, prev, base))
            == (if i < events.len() { event_end(events.last()) } else { prev }) - prev,
    decreases (if 0 <= i < events.len() { events.len() - i } else { 0 }),
{
    if i < events.len() {
        let e = events[i];
        if i + 1 < events.len() {
            assert(events[i + 1].rel_time >= event_end(events[i + 1 - 1]));
        }
        lemma_pass_wait_from(events, i + 1, event_end(e), base);
        lemma_event_wait(e, prev, base);
        lemma_total_wait_append(event_steps(e, prev, base), pass_steps(events, i + 1, event_end(e), base));
    } else {
        assert(total_wait(Seq::<Step>::empty()) == 0);
    }
}

/// For events in order, each pass waits exactly the pass length, so pass
/// after pass follows on without gap or overlap, and the whole playback
/// waits `loops` times the pass length.
pub proof fn lemma_playback_wait(events: Seq<HeEvent>, loops: nat, base: Ratio)
    requires
        events_in_order(events),
    ensures
        total_wait(pass_steps(events, 0, 0, base)) == pass_length(events),
        total_wait(looped_steps(events, loops, base)) == loops * pass_length(events),
    decreases loops,
{
    if events.len() > 0 {
        assert(events[0].rel_time >= 0);
    }
    lemma_pass_wait_from(events, 0, 0, base);
    if loops > 0 {
        let pass = pass_steps(events, 0, 0, base);
        let rest = looped_steps(events, (loops - 1) as nat, base);
        assert(looped_steps(events, loops, base) == pass + rest);
        lemma_playback_wait(events, (loops - 1) as nat, base);
        lemma_total_wait_append(pass, rest);
        let d = pass_length(events);
        let k = loops as int;
        assert(total_wait(rest) == (k - 1) * d);
        assert(total_wait(pass) == d);
        assert(k * d == d + (k - 1) * d) by (nonlinear_arith);
        assert(total_wait(looped_steps(events, loops, base)) == k * d);
    } else {
        assert(looped_steps(events, loops, base) =~= Seq::<Step>::empty());
        assert(total_wait(Seq::<Step>::empty()) == 0);
        let d = pass_length(events);
        assert(loops * d == 0) by (nonlinear_arith)
            requires
                loops == 0;
    }
}

/// What the playback plays from event `i` of pass `l` on, the previous
/// slot having ended at `prev`, with its times computed in `u32`
/// milliseconds: pass `l` is offset by `l * pass`; where an offset or an
/// event's start overflows, the playback ends there; where an event's end
/// overflows, it ends right after that event's pulse.
pub open spec fn timed_steps(
    events: Seq<HeEvent>,
    loops: nat,
    pass: int,
    base: Ratio,
    l: nat,
    i: int,
    prev: int,
) -> Seq<Step>
    decreases loops - l, events.len() - i,
{
    if l >= loops || i < 0 {
        Seq::empty()
    } else if i >= events.len() {
        if l + 1 < loops && (l + 1) * pass <= u32::MAX {
            timed_steps(events, loops, pass, base, l + 1, 0, 0)
        } else {
            Seq::empty()
        }
    } else {
        let e = events[i];
        let offset = l * pass;
        if offset + e.rel_time > u32::MAX {
            Seq::empty()
        } else {
            let lead = if e.rel_time > prev {
                seq![Step::Sleep((e.rel_time - prev) as u32)]
            } else {
                Seq::empty()
            };
            let pulse = seq![Step::Pulse { amplitude: Amplitude::Scaled { percent: e.intensity, base }, duration: e.duration }];
            if offset + event_end(e) > u32::MAX {
                lead + pulse
            } else {
                lead + pulse + seq![Step::Sleep(e.duration)]
                    + timed_steps(events, loops, pass, base, l, i + 1, event_end(e))
            }
        }
    }
}

proof fn lemma_timed_fits_from(events: Seq<HeEvent>, loops: nat, pass: int, base: Ratio, l: nat, i: int)
    requires
        0 <= pass,
        l < loops,
        0 <= i <= events.len(),
        times_fit(events, loops, pass),
    ensures
        timed_steps(events, loops, pass, base, l, i, prev_end(events, i))
            == pass_steps(events, i, prev_end(events, i), base) + looped_steps(events, (loops - l - 1) as nat, base),
    decreases loops - l, events.len() - i,
{
    let n = events.len();
    let rest = looped_steps(events, (loops - l - 1) as nat, base);
    if i == n {
        assert(pass_steps(events, i, prev_end(events, i), base) =~= Seq::<Step>::empty());
        if l + 1 < loops {
            lemma_max_end_nonneg(events);
            vstd::arithmetic::mul::lemma_mul_inequality(l + 1 as int, loops - 1, pass);
            lemma_timed_fits_from(events, loops, pass, base, l + 1, 0);
            let k = (loops - l - 1) as nat;
            assert(looped_steps(events, k, base)
                == pass_steps(events, 0, 0, base) + looped_steps(events, (k - 1) as nat, base));
            assert(Seq::<Step>::empty() + rest =~= rest);
        } else {
            assert(rest =~= Seq::<Step>::empty());
        }
    } else {
        let e = events[i];
        let prev = prev_end(events, i);
        lemma_max_end(events, i);
        vstd::arithmetic::mul::lemma_mul_inequality(l as int, loops - 1, pass);
        assert(l * pass + event_end(e) <= u32::MAX);
        lemma_timed_fits_from(events, loops, pass, base, l, i + 1);
        assert(prev_end(events, i + 1) == event_end(e));
        assert(pass_steps(events, i, prev, base)
            == event_steps(e, prev, base) + pass_steps(events, i + 1, event_end(e), base));
        let lead = if e.rel_time > prev {
            seq![Step::Sleep((e.rel_time - prev) as u32)]
        } else {
            Seq::<Step>::empty()
        };
        let pulse = seq![Step::Pulse { amplitude: Amplitude::Scaled { percent: e.intensity, base }, duration: e.duration }];
        assert(event_steps(e, prev, base) =~= lead + pulse + seq![Step::Sleep(e.duration)]);
        assert(timed_steps(events, loops, pass, base, l, i, prev)
            =~= event_steps(e, prev, base) + (pass_steps(events, i + 1, event_end(e), base) + rest));
    }
}

/// Where the times fit, the timed playback is the plain one: `loops`
/// passes of the pattern, one after the other.
pub proof fn lemma_timed_steps_fit(events: Seq<HeEvent>, loops: nat, pass: int, base: Ratio)
    requires
        0 <= pass,
        times_fit(events, loops, pass),
    ensures
        timed_steps(events, loops, pass, base, 0, 0, 0) == looped_steps(events, loops, base),
{
    if loops == 0 {
        assert(looped_steps(events, loops, base) =~= Seq::<Step>::empty());
    } else {
        lemma_timed_fits_from(events, loops, pass, base, 0, 0);
        assert(looped_steps(events, loops, base)
            == pass_steps(events, 0, 0, base) + looped_steps(events, (loops - 1) as nat, base));
    }
}

/// Where a playback stands.
#[derive(Clone, Copy, Debug, PartialEq, Eq, Structural)]
enum HePhase {
    /// Before the sequence check of the current event (or the end of a pass).
    AtEvent,
    /// After the wait before the current event, before its pulse.
    BeforePlay,
    /// After the pulse of the current event, before the wait while it runs.
    Resting,
    /// Nothing more to play.
    Finished,
}

#[derive(Clone, Copy)]
struct HeCursor {
    loop_index: usize,
    event_index: usize,
    time_offset: u32,
    current_time: u32,
    phase: HePhase,
}

/// The looped playback of a long pattern, one step at a time. A playback
/// belongs to the command numbered `sequence`; once a newer command has
/// come, it stops at its next check.
pub struct HePlayer {
    events: Vec<HeEvent>,
    loops: usize,
    pass_length: u32,
    base: Ratio,
    sequence: usize,
    cursor: HeCursor,
}

impl HePlayer {
    /// The events played.
    pub closed spec fn events(&self) -> Seq<HeEvent> {
        self.events@
    }

    /// How many passes are played.
    pub closed spec fn loops(&self) -> nat {
        self.loops as nat
    }

    /// The length of a pass, by which each pass is offset.
    pub closed spec fn pass_length(&self) -> u32 {
        self.pass_length
    }

    /// The pattern's base amplitude.
    pub closed spec fn base(&self) -> Ratio {
        self.base
    }

    /// The number of the command this playback belongs to.
    pub closed spec fn sequence(&self) -> usize {
        self.sequence
    }

    /// Whether the next step reads the command number.
    pub closed spec fn checks_sequence(&self) -> bool {
        self.cursor.phase is AtEvent || self.cursor.phase is BeforePlay
    }

    closed spec fn timed(&self, l: nat, i: int, prev: int) -> Seq<Step> {
        timed_steps(self.events@, self.loops as nat, self.pass_length as int, self.base, l, i, prev)
    }

    closed spec fn cursor_ok(&self, c: HeCursor) -> bool {
        let n = self.events@.len();
        &&& self.loops <= i32::MAX
        &&& c.phase !is Finished ==> {
            &&& c.loop_index < self.loops
            &&& c.time_offset == c.loop_index * self.pass_length
            &&& match c.phase {
                HePhase::AtEvent => c.event_index <= n
                    && c.current_time == c.time_offset + prev_end(self.events@, c.event_index as int),
                HePhase::BeforePlay => c.event_index < n
                    && c.time_offset + self.events@[c.event_index as int].rel_time <= u32::MAX,
                HePhase::Resting => c.event_index < n
                    && c.current_time == c.time_offset + event_end(self.events@[c.event_index as int]),
                HePhase::Finished => true,
            }
        }
    }

    closed spec fn remaining_at(&self, c: HeCursor) -> Seq<Step> {
        let ev = self.events@;
        let i = c.event_index as int;
        let l = c.loop_index as nat;
        match c.phase {
            HePhase::AtEvent => self.timed(l, i, prev_end(ev, i)),
            HePhase::BeforePlay => {
                let e = ev[i];
                let pulse = seq![Step::Pulse { amplitude: Amplitude::Scaled { percent: e.intensity, base: self.base }, duration: e.duration }];
                if c.time_offset + event_end(e) > u32::MAX {
                    pulse
                } else {
                    pulse + seq![Step::Sleep(e.duration)] + self.timed(l, i + 1, event_end(e))
                }
            },
            HePhase::Resting => seq![Step::Sleep(ev[i].duration)] + self.timed(l, i + 1, event_end(ev[i])),
            HePhase::Finished => Seq::empty(),
        }
    }

    /// What is left to play, in order.
    pub closed spec fn remaining(&self) -> Seq<Step> {
        self.remaining_at(self.cursor)
    }

    #[verifier::type_invariant]
    closed spec fn well_formed(&self) -> bool {
        self.cursor_ok(self.cursor)
    }

    /// A playback at its start.
    pub(crate) fn new(events: Vec<HeEvent>, loops: usize, pass_length: u32, base: Ratio, sequence: usize) -> (p: Self)
        requires
            1 <= loops <= i32::MAX,
        ensures
            p.events() == events@,
            p.loops() == loops,
            p.pass_length() == pass_length,
            p.base() == base,
            p.sequence() == sequence,
            p.checks_sequence(),
            p.remaining() == timed_steps(events@, loops as nat, pass_length as int, base, 0, 0, 0),
    {
        let cursor = HeCursor { loop_index: 0, event_index: 0, time_offset: 0, current_time: 0, phase: HePhase::AtEvent };
        HePlayer { events, loops, pass_length, base, sequence, cursor }
    }

    /// From an `AtEvent` cursor, the cursor at the next event to play,
    /// passing over ends of passes; `None` where the playback ends first.
    fn next_event(&self, c0: HeCursor) -> (r: Option<HeCursor>)
        requires
            self.cursor_ok(c0),
            c0.phase is AtEvent,
        ensures
            r is None ==> self.remaining_at(c0).len() == 0,
            r matches Some(c) ==> {
                &&& self.cursor_ok(c)
                &&& c.phase is AtEvent
                &&& c.event_index < self.events@.len()
                &&& self.remaining_at(c) == self.remaining_at(c0)
            },
    {
        let n = self.events.len();
        let mut c = c0;
        while c.event_index == n
            invariant
                n == self.events@.len(),
                self.cursor_ok(c),
                c.phase is AtEvent,
                self.remaining_at(c) == self.remaining_at(c0),
            decreases self.loops - c.loop_index,
        {
            if c.loop_index + 1 >= self.loops {
                return None;
            }
            let next = c.loop_index + 1;
            match (next as u32).checked_mul(self.pass_length) {
                None => {
                    return None;
                },
                Some(offset) => {
                    c = HeCursor {
                        loop_index: next,
                        event_index: 0,
                        time_offset: offset,
                        current_time: offset,
                        phase: HePhase::AtEvent,
                    };
                },
            }
        }
        Some(c)
    }

    /// The pulse of the event at a `BeforePlay` cursor, which starts at
    /// `target`, and the cursor after it (finished where the end of the
    /// event's slot overflows).
    fn pulse(&self, c: HeCursor, target: u32) -> (r: (Step, HeCursor))
        requires
            self.cursor_ok(c),
            c.phase is BeforePlay,
            target == c.time_offset + self.events@[c.event_index as int].rel_time,
        ensures
            self.cursor_ok(r.1),
            self.remaining_at(c).len() > 0,
            r.0 == self.remaining_at(c)[0],
            self.remaining_at(r.1) == self.remaining_at(c).drop_first(),
    {
        let e = self.events[c.event_index];
        let s = Step::Pulse { amplitude: Amplitude::Scaled { percent: e.intensity, base: self.base }, duration: e.duration };
        match target.checked_add(e.duration) {
            None => {
                let c2 = HeCursor { phase: HePhase::Finished, ..c };
                assert(self.remaining_at(c2) =~= self.remaining_at(c).drop_first());
                (s, c2)
            },
            Some(end) => {
                let c2 = HeCursor { current_time: end, phase: HePhase::Resting, ..c };
                assert(self.remaining_at(c2) =~= self.remaining_at(c).drop_first());
                (s, c2)
            },
        }
    }

    /// The next step of the playback, given the current command number.
    /// A newer command number at a check ends the playback; otherwise the
    /// step is the first of what is left to play.
    pub fn step(&mut self, current_sequence: usize) -> (s: Option<Step>)
        ensures
            final(self).events() == old(self).events(),
            final(self).loops() == old(self).loops(),
            final(self).pass_length() == old(self).pass_length(),
            final(self).base() == old(self).base(),
            final(self).sequence() == old(self).sequence(),
            old(self).checks_sequence() && current_sequence != old(self).sequence()
                ==> s is None && final(self).remaining().len() == 0,
            !(old(self).checks_sequence() && current_sequence != old(self).sequence())
                ==> stepped(old(self).remaining(), s, final(self).remaining()),
            !old(self).checks_sequence() ==> (s is None || s matches Some(Step::Sleep(_))),
    {
        proof {
            use_type_invariant(&*self);
        }
        let c = self.cursor;
        let finished = HeCursor { phase: HePhase::Finished, ..c };
        match c.phase {
            HePhase::Finished => None,
            HePhase::Resting => {
                let d = self.events[c.event_index].duration;
                let n = self.events.len();
                assert(c.event_index < n);
                let c2 = HeCursor { event_index: c.event_index + 1, phase: HePhase::AtEvent, ..c };
                assert(self.remaining_at(c2) =~= self.remaining_at(c).drop_first());
                self.cursor = c2;
                Some(Step::Sleep(d))
            },
            HePhase::BeforePlay => {
                if current_sequence != self.sequence {
                    self.cursor = finished;
                    return None;
                }
                let target = c.time_offset + self.events[c.event_index].rel_time;
                let (s, c2) = self.pulse(c, target);
                self.cursor = c2;
                Some(s)
            },
            HePhase::AtEvent => {
                let c1 = match self.next_event(c) {
                    None => {
                        self.cursor = finished;
                        return None;
                    },
                    Some(c1) => c1,
                };
                if current_sequence != self.sequence {
                    self.cursor = finished;
                    return None;
                }
                let e = self.events[c1.event_index];
                match c1.time_offset.checked_add(e.rel_time) {
                    None => {
                        self.cursor = finished;
                        None
                    },
                    Some(target) => {
                        let c2 = HeCursor { phase: HePhase::BeforePlay, ..c1 };
                        if target > c1.current_time {
                            assert(self.remaining_at(c2) =~= self.remaining_at(c1).drop_first());
                            self.cursor = c2;
                            Some(Step::Sleep(target - c1.current_time))
                        } else {
                            assert(self.remaining_at(c2) =~= self.remaining_at(c1));
                            let (s, c3) = self.pulse(c2, target);
                            self.cursor = c3;
                            Some(s)
                        }
                    },
                }
            },
        }
    }
}

} // verus!
