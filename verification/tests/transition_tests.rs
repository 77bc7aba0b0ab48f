use rtlsdr_mt::ControlError;
use rtlsdr_mt::DeviceState;
use rtlsdr_mt::rtlsdr_tuner;
use rtlsdr_mt::control::ctl_cancel;
use rtlsdr_mt::control::ctl_disable_agc;
use rtlsdr_mt::control::ctl_enable_agc;
use rtlsdr_mt::control::ctl_set_center_freq;
use rtlsdr_mt::control::ctl_set_ppm;
use rtlsdr_mt::control::ctl_set_tuner_gain;
use rtlsdr_mt::device::drv_set_freq_correction;
use rtlsdr_mt::device::drv_set_tuner_gain;
use rtlsdr_mt::device::drv_stream_enter;
use rtlsdr_mt::device::drv_stream_exit;

#[test]
fn fresh_session_is_idle_and_dirty() {
    let s = DeviceState::initial();
    assert!(!s.streaming);
    assert!(!s.cancel_requested);
    assert!(s.buffer_dirty);
    assert!(!s.manual_gain);
    assert!(!s.agc_on);
    assert_eq!(s.gains.len(), 29);
    assert_eq!(s.tuner, rtlsdr_tuner::RTLSDR_TUNER_R820T);
}

#[test]
fn freq_correction_reports_unchanged_status() {
    let s = DeviceState::initial();
    let (s1, st1) = drv_set_freq_correction(s, 5);
    assert_eq!(st1, 0);
    assert_eq!(s1.ppm, 5);
    let (s2, st2) = drv_set_freq_correction(s1, 5);
    // The driver's distinguished status for "already at that value".
    assert_eq!(st2, -2);
    assert_eq!(s2.ppm, 5);
}

#[test]
fn gain_commit_in_auto_mode_is_refused() {
    let s = DeviceState::initial();
    assert!(!s.manual_gain);
    let (s1, st) = drv_set_tuner_gain(s, 297);
    assert_ne!(st, 0);
    // Nothing was applied.
    assert_eq!(s1.tuner_gain, 0);
}

#[test]
fn compound_gain_set_forces_manual_mode_first() {
    let s = DeviceState::initial();
    assert!(!s.manual_gain);
    let (s1, r) = ctl_set_tuner_gain(s, 421);
    assert_eq!(r, Ok(()));
    assert!(s1.manual_gain);
    assert_eq!(s1.tuner_gain, 421);
}

#[test]
fn agc_transitions_set_both_flags_in_order() {
    let s = DeviceState::initial();
    let (s1, r1) = ctl_enable_agc(s);
    assert_eq!(r1, Ok(()));
    assert!(!s1.manual_gain);
    assert!(s1.agc_on);
    let (s2, r2) = ctl_disable_agc(s1);
    assert_eq!(r2, Ok(()));
    assert!(s2.manual_gain);
    assert!(!s2.agc_on);
}

#[test]
fn cancel_transition_only_marks_an_active_stream() {
    let s = DeviceState::initial();
    let idle = ctl_cancel(s);
    assert!(!idle.cancel_requested);
    assert!(!idle.streaming);

    let (streaming, st) = drv_stream_enter(idle);
    assert_eq!(st, 0);
    assert!(streaming.streaming);
    let cancelled = ctl_cancel(streaming);
    assert!(cancelled.cancel_requested);
    assert!(cancelled.streaming);

    let (ended, st2) = drv_stream_exit(cancelled);
    assert_eq!(st2, 0);
    assert!(!ended.streaming);
    assert!(!ended.cancel_requested);
}

#[test]
fn retune_during_stream_leaves_stream_state_alone() {
    let s = DeviceState::initial();
    let (s1, _) = drv_stream_enter(s);
    let (s2, r) = ctl_set_center_freq(s1, 774_781_250);
    assert_eq!(r, Ok(()));
    assert!(s2.streaming);
    assert!(!s2.cancel_requested);
    assert_eq!(s2.center_freq, 774_781_250);
    let (s3, r2) = ctl_set_ppm(s2, -2);
    assert_eq!(r2, Ok(()));
    assert!(s3.streaming);
}

#[test]
fn control_error_equality_is_by_variant() {
    let s = DeviceState::initial();
    let (_s1, r) = ctl_set_ppm(s, 0);
    // A fresh session already holds correction 0: the lenient path.
    assert_eq!(r, Ok(()));
    assert_ne!(r, Err(ControlError::Rejected));
}
