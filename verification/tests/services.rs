use richtap_vibrator::effects::{self, route, Route};
use richtap_vibrator::output::{Action, Amplitude, HalError, Ratio, UNSUPPORTED_CODE};
use richtap_vibrator::richtap::{cancels_playback, Request, RichtapTranslator};
use richtap_vibrator::vibrator::VibratorService;

#[test]
fn effect_table_matches_hardware_indices() {
    assert_eq!(route(effects::TICK), Some(Route { index: 1, duration: 10 }));
    assert_eq!(route(effects::CLICK), Some(Route { index: 2, duration: 15 }));
    assert_eq!(route(effects::TEXTURE_TICK), Some(Route { index: 4, duration: 20 }));
    assert_eq!(route(effects::HEAVY_CLICK), Some(Route { index: 5, duration: 30 }));
    assert_eq!(route(effects::DOUBLE_CLICK), Some(Route { index: 6, duration: 60 }));
    assert_eq!(route(effects::THUD), Some(Route { index: 7, duration: 35 }));
    assert_eq!(route(effects::POP), Some(Route { index: 1, duration: 15 }));
    assert_eq!(route(6), None);
    assert_eq!(route(-1), None);
}

#[test]
fn capabilities_depend_on_gain_node() {
    assert_eq!(VibratorService::new(true).get_capabilities(), 7);
    assert_eq!(VibratorService::new(false).get_capabilities(), 3);
    assert!(VibratorService::new(true).applies_amplitude());
    assert!(!VibratorService::new(false).applies_amplitude());
}

#[test]
fn vibrator_perform_plays_waveform() {
    let s = VibratorService::new(false);
    let (d, actions) = s.perform(effects::DOUBLE_CLICK).unwrap();
    assert_eq!(d, 60);
    assert_eq!(actions, vec![Action::SetIndex(6), Action::On(60)]);
}

#[test]
fn vibrator_perform_refuses_unknown_effect() {
    let s = VibratorService::new(true);
    assert_eq!(s.perform(7), Err(HalError::ServiceSpecific(-1)));
    assert_eq!(UNSUPPORTED_CODE, -1);
}

#[test]
fn vibrator_supported_effects_are_all_playable() {
    let s = VibratorService::new(true);
    let list = s.get_supported_effects();
    assert_eq!(list, vec![0, 1, 2, 3, 4, 5]);
    for e in list {
        assert!(s.perform(e).is_ok());
    }
}

#[test]
fn vibrator_refusals_and_limits() {
    let s = VibratorService::new(true);
    assert_eq!(s.set_external_control(true), Err(HalError::ServiceSpecific(-1)));
    assert_eq!(s.compose(), Err(HalError::ServiceSpecific(-1)));
    assert_eq!(s.always_on_enable(1, 0), Err(HalError::ServiceSpecific(-1)));
    assert_eq!(s.always_on_disable(1), Err(HalError::ServiceSpecific(-1)));
    assert_eq!(s.compose_pwle(), Err(HalError::ServiceSpecific(-1)));
    assert_eq!(s.composition_limit(), 0);
    assert!(s.get_supported_primitives().is_empty());
    assert!(s.get_supported_always_on_effects().is_empty());
    assert!(s.get_supported_braking().is_empty());
}

#[test]
fn vibrator_on_off() {
    let s = VibratorService::new(true);
    assert_eq!(s.on(250), vec![Action::On(250)]);
    assert_eq!(s.on(-1), vec![Action::On(u32::MAX)]);
    assert_eq!(s.off(), vec![Action::Off]);
}

#[test]
fn richtap_perform_routes_and_falls_back() {
    let t = RichtapTranslator::new();
    assert_eq!(t.perform(effects::THUD), (35, vec![Action::SetIndex(7), Action::On(35)]));
    assert_eq!(t.perform(effects::TEXTURE_TICK), (20, vec![Action::SetIndex(4), Action::On(20)]));
    assert_eq!(t.perform(99), (10, vec![Action::On(10)]));
}

#[test]
fn richtap_simple_commands() {
    let t = RichtapTranslator::new();
    assert_eq!(t.perform_rtp(), vec![Action::On(50)]);
    assert_eq!(t.stop(), vec![Action::Off]);
    assert_eq!(t.off(), vec![Action::Off]);
    assert_eq!(t.on(30), vec![Action::On(30)]);
    assert_eq!(t.on(-2), vec![Action::On(u32::MAX - 1)]);
}

#[test]
fn richtap_amplitude_commands() {
    let t = RichtapTranslator::new();
    assert_eq!(
        t.set_amplitude(128),
        vec![Action::SetAmplitude(Amplitude::Ratio(Ratio { numerator: 128, denominator: 255 }))]
    );
    assert_eq!(
        t.set_dynamic_scale(40),
        vec![Action::SetAmplitude(Amplitude::Ratio(Ratio { numerator: 40, denominator: 100 }))]
    );
    assert_eq!(
        t.perform_he_param(5, 200, 170),
        vec![Action::SetAmplitude(Amplitude::Ratio(Ratio { numerator: 200, denominator: 255 }))]
    );
}

#[test]
fn both_services_play_routed_effects_alike() {
    let v = VibratorService::new(false);
    let t = RichtapTranslator::new();
    for e in -2..30 {
        match v.perform(e) {
            Ok(r) => assert_eq!(r, t.perform(e)),
            Err(err) => {
                assert_eq!(err, HalError::ServiceSpecific(-1));
                assert_eq!(t.perform(e), (10, vec![Action::On(10)]));
            }
        }
    }
}

#[test]
fn motor_requests_cancel_playback() {
    for r in [
        Request::Stop,
        Request::Off,
        Request::On,
        Request::Perform,
        Request::PerformEnvelope,
        Request::PerformRtp,
        Request::PerformHe,
    ] {
        assert!(cancels_playback(r));
    }
    for r in [
        Request::Init,
        Request::SetDynamicScale,
        Request::SetF0,
        Request::SetAmplitude,
        Request::PerformHeParam,
    ] {
        assert!(!cancels_playback(r));
    }
}
