use rtlsdr_mt::ControlError;
use rtlsdr_mt::StreamError;
use rtlsdr_mt::outcome::OpenPlan;
use rtlsdr_mt::outcome::control_outcome;
use rtlsdr_mt::outcome::gains_count_valid;
use rtlsdr_mt::outcome::open_plan;
use rtlsdr_mt::outcome::ppm_outcome;
use rtlsdr_mt::outcome::stream_outcome;

#[test]
fn control_status_zero_is_ok() {
    assert_eq!(control_outcome(0), Ok(()));
    assert_eq!(control_outcome(-1), Err(ControlError::Rejected));
    assert_eq!(control_outcome(1), Err(ControlError::Rejected));
    assert_eq!(control_outcome(-2), Err(ControlError::Rejected));
}

#[test]
fn ppm_status_unchanged_is_ok_too() {
    assert_eq!(ppm_outcome(0), Ok(()));
    assert_eq!(ppm_outcome(-2), Ok(()));
    assert_eq!(ppm_outcome(-1), Err(ControlError::Rejected));
    assert_eq!(ppm_outcome(-3), Err(ControlError::Rejected));
}

#[test]
fn stream_status_nonzero_is_failure() {
    assert_eq!(stream_outcome(0), Ok(()));
    assert_eq!(stream_outcome(-5), Err(StreamError::Failed));
    assert_eq!(stream_outcome(3), Err(StreamError::Failed));
}

#[test]
fn open_plan_covers_the_three_step_outcomes() {
    assert_eq!(open_plan(0, 0), OpenPlan::Proceed);
    assert_eq!(open_plan(-1, 0), OpenPlan::FailBeforeAcquire);
    // The acquire step succeeded but the reset failed: the session must be
    // released before the error returns.
    assert_eq!(open_plan(0, -1), OpenPlan::FailAfterAcquire);
    assert_eq!(open_plan(-1, -1), OpenPlan::FailBeforeAcquire);
}

#[test]
fn gains_count_bounds_are_one_to_thirty_two() {
    assert!(!gains_count_valid(0));
    assert!(!gains_count_valid(-1));
    assert!(gains_count_valid(1));
    assert!(gains_count_valid(29));
    assert!(gains_count_valid(32));
    assert!(!gains_count_valid(33));
}
