use richtap_vibrator::envelope::{perform_envelope, EnvelopePlan};
use richtap_vibrator::he::{admissible_pattern, perform_he, HePlan};
use richtap_vibrator::output::{Action, Amplitude, Ratio, Step};

fn run_envelope(env: &[i32]) -> Vec<Step> {
    match perform_envelope(env, 1) {
        EnvelopePlan::Playback(mut p) => {
            let mut out = Vec::new();
            while let Some(s) = p.step(1) {
                out.push(s);
            }
            out
        }
        EnvelopePlan::Immediate(_) => panic!("expected a playback"),
    }
}

fn he_steps(looper: i32, amplitude: i32, pattern: &[i32], limit: usize) -> Vec<Step> {
    match perform_he(looper, 0, amplitude, pattern, 3) {
        HePlan::Playback(mut p) => {
            let mut out = Vec::new();
            while let Some(s) = p.step(3) {
                out.push(s);
                if out.len() >= limit {
                    break;
                }
            }
            out
        }
        HePlan::Immediate(_) => panic!("expected a playback"),
    }
}

fn level(l: i32, d: u32) -> Step {
    Step::Pulse { amplitude: Amplitude::Ratio(Ratio { numerator: l, denominator: 255 }), duration: d }
}

#[test]
fn malformed_envelope_clicks() {
    for env in [&[][..], &[1, 2][..], &[200, 100, 0, 300][..]] {
        match perform_envelope(env, 7) {
            EnvelopePlan::Immediate(a) => assert_eq!(a, vec![Action::On(10)]),
            EnvelopePlan::Playback(_) => panic!("expected a click"),
        }
    }
}

#[test]
fn short_envelope_is_compressed_to_a_click() {
    match perform_envelope(&[50, 255, 0, 150, 100, 0], 7) {
        EnvelopePlan::Immediate(a) => assert_eq!(
            a,
            vec![
                Action::SetAmplitude(Amplitude::Ratio(Ratio { numerator: 7, denominator: 10 })),
                Action::On(10)
            ]
        ),
        EnvelopePlan::Playback(_) => panic!("expected a click"),
    }
}

#[test]
fn envelope_plays_segments_in_time() {
    let steps = run_envelope(&[100, 255, 0, 100, 10, 0, 250, 0, 0, 400, 128, 0]);
    assert_eq!(
        steps,
        vec![
            level(255, 100),
            Step::Sleep(100),
            Step::Off,
            Step::Sleep(150),
            level(128, 150),
            Step::Sleep(150),
        ]
    );
    let total: u32 = steps.iter().map(|s| if let Step::Sleep(d) = s { *d } else { 0 }).sum();
    assert_eq!(total, 400);
}

#[test]
fn envelope_points_earlier_than_reached_are_skipped() {
    let steps = run_envelope(&[300, 50, 0, 200, 90, 0]);
    assert_eq!(steps, vec![level(50, 300), Step::Sleep(300)]);
}

#[test]
fn envelope_stops_when_a_newer_command_comes() {
    match perform_envelope(&[100, 255, 0, 400, 128, 0], 4) {
        EnvelopePlan::Playback(mut p) => {
            assert_eq!(p.step(4), Some(level(255, 100)));
            assert_eq!(p.step(5), Some(Step::Sleep(100)));
            assert_eq!(p.step(5), None);
            assert_eq!(p.step(4), None);
        }
        EnvelopePlan::Immediate(_) => panic!("expected a playback"),
    }
}

#[test]
fn short_he_pattern_durations() {
    let check = |interval: i32, amplitude: i32, pattern: &[i32], ratio: Ratio, d: u32| match perform_he(
        1, interval, amplitude, pattern, 1,
    ) {
        HePlan::Immediate(a) => {
            assert_eq!(a, vec![Action::SetAmplitude(Amplitude::Ratio(ratio)), Action::On(d)])
        }
        HePlan::Playback(_) => panic!("expected an immediate plan"),
    };
    let full = Ratio { numerator: 1, denominator: 1 };
    check(0, 0, &[], full, 10);
    check(25, 0, &[], full, 25);
    check(25, 100, &[4096, 5, 0, 0, 80, 0, 33], Ratio { numerator: 100, denominator: 255 }, 25);
    check(0, 100, &[4096, 5, 0, 0, 80, 0, 33], Ratio { numerator: 100, denominator: 255 }, 33);
    check(-7, 0, &[4096, 5, 0, 0, 80, 0, 33], full, 33);
    check(25, -3, &[4096, 5, 0, 0], full, 25);
    check(0, 0, &[4097, 2, 0, 0], full, 8);
    check(12, 0, &[4097, 2, 0, 0], full, 12);
    check(-4, 255, &[1, 2, 3], Ratio { numerator: 255, denominator: 255 }, 10);
}

fn long_pattern() -> Vec<i32> {
    // a waveform segment (size 5), a prebaked effect (size 2), filler, a waveform segment
    let mut p = vec![4096, 5, 0, 999, 50, 0, 20];
    p.extend_from_slice(&[4097, 2, 0, 60]);
    p.extend_from_slice(&[7, 7, 7]);
    p.extend_from_slice(&[4096, 5, 0, 100, 80, 0, 30]);
    p
}

fn scaled(percent: u32, d: u32) -> Step {
    Step::Pulse {
        amplitude: Amplitude::Scaled { percent, base: Ratio { numerator: 1, denominator: 1 } },
        duration: d,
    }
}

#[test]
fn long_he_pattern_is_parsed_and_looped() {
    let p = long_pattern();
    assert!(p.len() > 16);
    assert!(admissible_pattern(&p));
    let steps = he_steps(2, 0, &p, 100);
    let pass = vec![
        scaled(50, 20),
        Step::Sleep(20),
        Step::Sleep(40),
        scaled(100, 8),
        Step::Sleep(8),
        Step::Sleep(32),
        scaled(80, 30),
        Step::Sleep(30),
    ];
    let mut both = pass.clone();
    both.extend(pass);
    assert_eq!(steps, both);
    // the events are in order, so the playback waits twice the pass length (130 ms)
    let total: u32 = steps.iter().map(|s| if let Step::Sleep(d) = s { *d } else { 0 }).sum();
    assert_eq!(total, 260);
}

#[test]
fn he_playback_stops_when_a_newer_command_comes() {
    match perform_he(5, 0, 0, &long_pattern(), 9) {
        HePlan::Playback(mut p) => {
            assert_eq!(p.step(9), Some(scaled(50, 20)));
            assert_eq!(p.step(10), Some(Step::Sleep(20)));
            assert_eq!(p.step(10), None);
            assert_eq!(p.step(9), None);
        }
        HePlan::Immediate(_) => panic!("expected a playback"),
    }
}

#[test]
fn he_playback_ends_where_times_overflow() {
    // one event of 2^31 - 1 ms; the end of the third pass's event does not fit in a u32
    let mut p = vec![4096, 5, 0, 0, 100, 0, i32::MAX];
    p.extend_from_slice(&[0; 10]);
    match perform_he(3, 0, 0, &p, 1) {
        HePlan::Playback(mut pl) => {
            let d = i32::MAX as u32;
            assert_eq!(pl.step(1), Some(scaled(100, d)));
            assert_eq!(pl.step(1), Some(Step::Sleep(d)));
            assert_eq!(pl.step(1), Some(scaled(100, d)));
            assert_eq!(pl.step(1), Some(Step::Sleep(d)));
            assert_eq!(pl.step(1), Some(scaled(100, d)));
            assert_eq!(pl.step(1), None);
        }
        HePlan::Immediate(_) => panic!("expected a playback"),
    }
}

#[test]
fn he_pattern_with_runaway_size_is_not_admissible() {
    let mut p = vec![4096, -1, 0, 0, 100, 0, 10];
    p.extend_from_slice(&[0; 10]);
    assert!(!admissible_pattern(&p));
    let mut q = vec![4096, 5, 0, -1, 100, 0, 10];
    q.extend_from_slice(&[0; 10]);
    // the first event starts at once, so its start field is ignored
    assert!(admissible_pattern(&q));
    let mut r = vec![4096, 5, 0, 0, 100, 0, 10, 4096, 5, 0, -1, 100, 0, 10];
    r.extend_from_slice(&[0; 4]);
    assert!(!admissible_pattern(&r));
}
