//! Amplitude envelopes: their validation, the shortcut for short taps,
//! and their timed playback.

use vstd::prelude::*;
use crate::output::{lemma_total_wait_append, stepped, total_wait, Action, Amplitude, Ratio, Step};

verus! {

/// Envelopes that end at most this many milliseconds in are played as a click.
pub const TAP_MAX_MS: u32 = 150;

/// One point of an envelope: at `time` ms, the level (0 to 255) to hold
/// from the previous point on.
#[derive(Clone, Copy, Debug, PartialEq, Eq, Structural)]
pub struct EnvelopePoint {
    pub time: u32,
    pub level: i32,
}

/// Whether an envelope is well formed: whole triples, at least one.
pub open spec fn envelope_valid(env: Seq<i32>) -> bool {
    env.len() >= 3 && env.len() % 3 == 0
}

/// The points of an envelope: of each triple, the time and the level.
pub open spec fn envelope_points(env: Seq<i32>) -> Seq<EnvelopePoint> {
    Seq::new(env.len() / 3, |k: int| EnvelopePoint { time: env[3 * k] as u32, level: env[3 * k + 1] })
}

/// The amplitude of a level: `level / 255`.
pub open spec fn level_amplitude(level: i32) -> Amplitude {
    Amplitude::Ratio(Ratio { numerator: level, denominator: 255 })
}

/// The segment up to `pt`, from the time `cur` reached so far: where `pt`
/// lies later, the motor runs at its level (or stops, for a level of 0 or
/// less) for the gap, and the playback waits it out; else nothing.
pub open spec fn segment_steps(pt: EnvelopePoint, cur: u32) -> Seq<Step> {
    if pt.time > cur {
        let d = (pt.time - cur) as u32;
        let act = if pt.level > 0 {
            Step::Pulse { amplitude: level_amplitude(pt.level), duration: d }
        } else {
            Step::Off
        };
        seq![act, Step::Sleep(d)]
    } else {
        Seq::empty()
    }
}

/// The latest of `cur` and the time of `pt`.
pub open spec fn reached(pt: EnvelopePoint, cur: u32) -> u32 {
    if pt.time > cur { pt.time } else { cur }
}

/// The playback of the points from point `i` on, the time `cur` reached.
pub open spec fn envelope_steps(points: Seq<EnvelopePoint>, i: int, cur: u32) -> Seq<Step>
    decreases (if 0 <= i < points.len() { points.len() - i } else { 0 }),
{
    if 0 <= i < points.len() {
        segment_steps(points[i], cur) + envelope_steps(points, i + 1, reached(points[i], cur))
    } else {
        Seq::empty()
    }
}

/// The latest of `cur` and the times of the points from point `i` on.
pub open spec fn latest_time(points: Seq<EnvelopePoint>, i: int, cur: u32) -> u32
    decreases (if 0 <= i < points.len() { points.len() - i } else { 0 }),
{
    if 0 <= i < points.len() {
        latest_time(points, i + 1, reached(points[i], cur))
    } else {
        cur
    }
}

/// The waits of an envelope playback take it from the time reached to the
/// latest point's time: the playback lasts until the envelope's last
/// point in time.
pub proof fn lemma_envelope_wait(points: Seq<EnvelopePoint>, i: int, cur: u32)
    requires
        0 <= i,
    ensures
        total_wait(envelope_steps(points, i, cur)) == latest_time(points, i, cur) - cur,
        latest_time(points, i, cur) >= cur,
    decreases (if 0 <= i < points.len() { points.len() - i } else { 0 }),
{
    if i < points.len() {
        let pt = points[i];
        let seg = segment_steps(pt, cur);
        lemma_envelope_wait(points, i + 1, reached(pt, cur));
        lemma_total_wait_append(seg, envelope_steps(points, i + 1, reached(pt, cur)));
        if pt.time > cur {
            let d = (pt.time - cur) as u32;
            assert(seg.drop_first() =~= seq![Step::Sleep(d)]);
            assert(seq![Step::Sleep(d)].drop_first() =~= Seq::<Step>::empty());
            assert(total_wait(Seq::<Step>::empty()) == 0);
            assert(total_wait(seq![Step::Sleep(d)]) == d);
            assert(seg[0] !is Sleep);
            assert(total_wait(seg) == d);
        } else {
            assert(total_wait(seg) == 0);
        }
    }
}

/// Every wait and every run of the motor in an envelope playback lasts at
/// least a millisecond.
pub proof fn lemma_envelope_steps_positive(points: Seq<EnvelopePoint>, i: int, cur: u32, k: int)
    requires
        0 <= i,
        0 <= k < envelope_steps(points, i, cur).len(),
    ensures
        match envelope_steps(points, i, cur)[k] {
            Step::Sleep(d) => d > 0,
            Step::Pulse { duration, .. } => duration > 0,
            Step::Off => true,
        },
    decreases (if 0 <= i < points.len() { points.len() - i } else { 0 }),
{
    if i < points.len() {
        let seg = segment_steps(points[i], cur);
        let rest = envelope_steps(points, i + 1, reached(points[i], cur));
        assert(envelope_steps(points, i, cur) == seg + rest);
        if k >= seg.len() {
            lemma_envelope_steps_positive(points, i + 1, reached(points[i], cur), k - seg.len());
        }
    }
}

/// Any envelope of one or more whole triples is well formed; one with a
/// partial triple, or empty, is not.
pub proof fn lemma_envelope_valid_lengths(env: Seq<i32>)
    ensures
        env.len() > 0 && env.len() % 3 == 0 ==> envelope_valid(env),
        env.len() % 3 != 0 || env.len() == 0 ==> !envelope_valid(env),
        envelope_valid(env) ==> envelope_points(env).len() == env.len() / 3,
        envelope_valid(env) ==> envelope_points(env).last().time == env[env.len() - 3] as u32,
{
}

/// An envelope of a single triple `[t, l, f]`, later than the tap limit
/// and with a positive level, runs the motor at `l / 255` for `t` ms and
/// waits it out.
pub proof fn lemma_single_point_envelope(t: i32, l: i32, f: i32)
    requires
        t as u32 > TAP_MAX_MS,
        l > 0,
    ensures
        envelope_valid(seq![t, l, f]),
        envelope_points(seq![t, l, f]) == seq![EnvelopePoint { time: t as u32, level: l }],
        envelope_steps(envelope_points(seq![t, l, f]), 0, 0) == seq![
            Step::Pulse { amplitude: Amplitude::Ratio(Ratio { numerator: l, denominator: 255 }), duration: t as u32 },
            Step::Sleep(t as u32),
        ],
{
    let env = seq![t, l, f];
    let pts = envelope_points(env);
    assert(pts =~= seq![EnvelopePoint { time: t as u32, level: l }]);
    let pt = pts[0];
    assert(envelope_steps(pts, 1, reached(pt, 0)) =~= Seq::<Step>::empty());
    assert(envelope_steps(pts, 0, 0) == segment_steps(pt, 0) + envelope_steps(pts, 1, reached(pt, 0)));
    assert(envelope_steps(pts, 0, 0) =~= seq![
        Step::Pulse { amplitude: Amplitude::Ratio(Ratio { numerator: l, denominator: 255 }), duration: t as u32 },
        Step::Sleep(t as u32),
    ]);
}

/// Where an envelope playback stands.
#[derive(Clone, Copy, Debug, PartialEq, Eq, Structural)]
enum EnvelopePhase {
    /// Before the sequence check of the next point.
    Ready,
    /// After running or stopping the motor, before waiting the given milliseconds.
    Holding(u32),
    /// Nothing more to play.
    Finished,
}

#[derive(Clone, Copy)]
struct EnvelopeCursor {
    index: usize,
    current_time: u32,
    phase: EnvelopePhase,
}

/// The playback of an envelope, one step at a time, for the command
/// numbered `sequence`; it stops at its next check once a newer command
/// has come.
pub struct EnvelopePlayer {
    points: Vec<EnvelopePoint>,
    sequence: usize,
    cursor: EnvelopeCursor,
}

impl EnvelopePlayer {
    /// The points played.
    pub closed spec fn points(&self) -> Seq<EnvelopePoint> {
        self.points@
    }

    /// The number of the command this playback belongs to.
    pub closed spec fn sequence(&self) -> usize {
        self.sequence
    }

    /// Whether the next step reads the command number.
    pub closed spec fn checks_sequence(&self) -> bool {
        self.cursor.phase is Ready
    }

    closed spec fn remaining_at(&self, c: EnvelopeCursor) -> Seq<Step> {
        match c.phase {
            EnvelopePhase::Ready => envelope_steps(self.points@, c.index as int, c.current_time),
            EnvelopePhase::Holding(d) => seq![Step::Sleep(d)]
                + envelope_steps(self.points@, c.index as int, c.current_time),
            EnvelopePhase::Finished => Seq::empty(),
        }
    }

    /// What is left to play, in order.
    pub closed spec fn remaining(&self) -> Seq<Step> {
        self.remaining_at(self.cursor)
    }

    #[verifier::type_invariant]
    closed spec fn well_formed(&self) -> bool {
        self.cursor.index <= self.points@.len()
    }

    /// From a `Ready` cursor, the first step of the next segment with a
    /// gap and the cursor after it; `None` where no such segment is left.
    fn next_segment(&self, c: EnvelopeCursor) -> (r: Option<(Step, EnvelopeCursor)>)
        requires
            c.index <= self.points@.len(),
            c.phase is Ready,
        ensures
            r is None ==> self.remaining_at(c).len() == 0,
            r matches Some((act, c2)) ==> {
                &&& c2.index <= self.points@.len()
                &&& self.remaining_at(c).len() > 0
                &&& act == self.remaining_at(c)[0]
                &&& self.remaining_at(c2) == self.remaining_at(c).drop_first()
            },
    {
        let n = self.points.len();
        let mut i = c.index;
        while i < n
            invariant
                n == self.points@.len(),
                c.index <= i <= n,
                c.phase is Ready,
                envelope_steps(self.points@, i as int, c.current_time) == self.remaining_at(c),
            decreases n - i,
        {
            let pt = self.points[i];
            let ghost pts = self.points@;
            assert(envelope_steps(pts, i as int, c.current_time)
                == segment_steps(pt, c.current_time)
                    + envelope_steps(pts, i + 1, reached(pt, c.current_time)));
            if pt.time > c.current_time {
                let d = pt.time - c.current_time;
                let act = if pt.level > 0 {
                    Step::Pulse { amplitude: Amplitude::Ratio(Ratio { numerator: pt.level, denominator: 255 }), duration: d }
                } else {
                    Step::Off
                };
                let c2 = EnvelopeCursor { index: i + 1, current_time: pt.time, phase: EnvelopePhase::Holding(d) };
                assert(self.remaining_at(c2) =~= self.remaining_at(c).drop_first());
                return Some((act, c2));
            }
            assert(segment_steps(pt, c.current_time) =~= Seq::<Step>::empty());
            i = i + 1;
        }
        assert(envelope_steps(self.points@, n as int, c.current_time) =~= Seq::<Step>::empty());
        None
    }

    /// The next step of the playback, given the current command number.
    /// A newer command number at a check ends the playback; otherwise the
    /// step is the first of what is left to play.
    pub fn step(&mut self, current_sequence: usize) -> (s: Option<Step>)
        ensures
            final(self).points() == old(self).points(),
            final(self).sequence() == old(self).sequence(),
            old(self).checks_sequence() && current_sequence != old(self).sequence()
                ==> s is None && final(self).remaining().len() == 0,
            !(old(self).checks_sequence() && current_sequence != old(self).sequence())
                ==> stepped(old(self).remaining(), s, final(self).remaining()),
            !old(self).checks_sequence() ==> (s is None || s matches Some(Step::Sleep(_))),
    {
        proof {
            use_type_invariant(&*self);
        }
        let c = self.cursor;
        let finished = EnvelopeCursor { phase: EnvelopePhase::Finished, ..c };
        match c.phase {
            EnvelopePhase::Finished => None,
            EnvelopePhase::Holding(d) => {
                let c2 = EnvelopeCursor { phase: EnvelopePhase::Ready, ..c };
                assert(self.remaining_at(c2) =~= self.remaining_at(c).drop_first());
                self.cursor = c2;
                Some(Step::Sleep(d))
            },
            EnvelopePhase::Ready => {
                if current_sequence != self.sequence {
                    self.cursor = finished;
                    return None;
                }
                match self.next_segment(c) {
                    None => {
                        self.cursor = finished;
                        None
                    },
                    Some((act, c2)) => {
                        self.cursor = c2;
                        Some(act)
                    },
                }
            },
        }
    }
}

/// How the service answers an envelope request.
pub enum EnvelopePlan {
    /// These actions, at once.
    Immediate(Vec<Action>),
    /// A playback to run beside the service.
    Playback(EnvelopePlayer),
}

/// Plans an envelope request of the command numbered `sequence`. A
/// malformed envelope gives a 10 ms click; one that ends by 150 ms a
/// 10 ms click at 70 % amplitude; any other is played point by point.
pub fn perform_envelope(env: &[i32], sequence: usize) -> (plan: EnvelopePlan)
    ensures
        !envelope_valid(env@) ==> (plan matches EnvelopePlan::Immediate(actions)
            && actions@ == seq![Action::On(10)]),
        envelope_valid(env@) && envelope_points(env@).last().time <= TAP_MAX_MS
            ==> (plan matches EnvelopePlan::Immediate(actions) && actions@ == seq![
                Action::SetAmplitude(Amplitude::Ratio(Ratio { numerator: 7, denominator: 10 })),
                Action::On(10),
            ]),
        envelope_valid(env@) && envelope_points(env@).last().time > TAP_MAX_MS
            ==> (plan matches EnvelopePlan::Playback(player) && {
                &&& player.points() == envelope_points(env@)
                &&& player.sequence() == sequence
                &&& player.checks_sequence()
                &&& player.remaining() == envelope_steps(envelope_points(env@), 0, 0)
            }),
        env@.len() % 3 == 0 && env@.len() > 0 && env@[env@.len() - 3] as u32 > TAP_MAX_MS
            ==> plan is Playback,
        env@.len() % 3 != 0 || env@.len() == 0 ==> (plan matches EnvelopePlan::Immediate(actions)
            && actions@ == seq![Action::On(10)]),
{
    let len = env.len();
    if len < 3 || len % 3 != 0 {
        let mut actions = Vec::new();
        actions.push(Action::On(10));
        return EnvelopePlan::Immediate(actions);
    }
    let mut points: Vec<EnvelopePoint> = Vec::new();
    let mut k: usize = 0;
    while k < len / 3
        invariant
            len == env@.len(),
            len % 3 == 0,
            k <= len / 3,
            points@ =~= envelope_points(env@).take(k as int),
        decreases len / 3 - k,
    {
        points.push(EnvelopePoint { time: #[verifier::truncate] (env[3 * k] as u32), level: env[3 * k + 1] });
        k = k + 1;
    }
    assert(points@ =~= envelope_points(env@));
    let total = points[points.len() - 1].time;
    if total <= TAP_MAX_MS {
        let mut actions = Vec::new();
        actions.push(Action::SetAmplitude(Amplitude::Ratio(Ratio { numerator: 7, denominator: 10 })));
        actions.push(Action::On(10));
        return EnvelopePlan::Immediate(actions);
    }
    EnvelopePlan::Playback(EnvelopePlayer {
        points,
        sequence,
        cursor: EnvelopeCursor { index: 0, current_time: 0, phase: EnvelopePhase::Ready },
    })
}

} // verus!
