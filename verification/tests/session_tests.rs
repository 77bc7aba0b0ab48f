use rtlsdr_mt::OpenError;
use rtlsdr_mt::open;

#[test]
fn open_valid_index_succeeds() {
    let r = open(0);
    assert!(r.is_ok());
}

#[test]
fn open_invalid_index_is_unavailable() {
    let r = open(1);
    match r {
        Err(OpenError::Unavailable) => {}
        _ => panic!("expected the open to be unavailable"),
    }
    let r2 = open(1_000_000);
    assert!(r2.is_err());
}

#[test]
fn cancel_with_no_stream_is_noop() {
    let (mut ctl, _reader) = open(0).unwrap();
    ctl.cancel_async_read();
    // The session is undisturbed: control calls still succeed afterwards.
    assert_eq!(ctl.set_center_freq(100_000_000), Ok(()));
    assert_eq!(ctl.center_freq(), 100_000_000);
    ctl.cancel_async_read();
    ctl.cancel_async_read();
    assert_eq!(ctl.set_sample_rate(2_048_000), Ok(()));
}

#[test]
fn sample_rate_round_trip() {
    let (mut ctl, _reader) = open(0).unwrap();
    assert_eq!(ctl.set_sample_rate(2_048_000), Ok(()));
    assert_eq!(ctl.sample_rate(), 2_048_000);
    assert_eq!(ctl.set_sample_rate(250_000), Ok(()));
    assert_eq!(ctl.sample_rate(), 250_000);
}

#[test]
fn center_freq_round_trip() {
    let (mut ctl, _reader) = open(0).unwrap();
    assert_eq!(ctl.set_center_freq(774_781_250), Ok(()));
    assert_eq!(ctl.center_freq(), 774_781_250);
}

#[test]
fn bandwidth_set_succeeds() {
    let (mut ctl, _reader) = open(0).unwrap();
    assert_eq!(ctl.set_bandwidth(1_500_000), Ok(()));
}

#[test]
fn ppm_set_and_unchanged_are_both_ok() {
    let (mut ctl, _reader) = open(0).unwrap();
    assert_eq!(ctl.set_ppm(-2), Ok(()));
    assert_eq!(ctl.ppm(), -2);
    // Setting the same correction again hits the driver's distinguished
    // "already at that value" status, which is success, not an error.
    assert_eq!(ctl.set_ppm(-2), Ok(()));
    assert_eq!(ctl.ppm(), -2);
    assert_eq!(ctl.set_ppm(7), Ok(()));
    assert_eq!(ctl.ppm(), 7);
}

#[test]
fn gain_round_trip_over_queried_table() {
    let (mut ctl, _reader) = open(0).unwrap();
    let mut gains = [0i32; 32];
    let n = ctl.tuner_gains(&mut gains);
    assert!(1 <= n && n <= 32);
    for i in 0..n {
        let g = gains[i];
        assert_eq!(ctl.set_tuner_gain(g), Ok(()));
        assert_eq!(ctl.tuner_gain(), g);
    }
}

#[test]
fn agc_round_trip_leaves_manual_gain_usable() {
    let (mut ctl, _reader) = open(0).unwrap();
    assert_eq!(ctl.enable_agc(), Ok(()));
    assert_eq!(ctl.disable_agc(), Ok(()));
    // After the round trip the tuner is in manual gain mode, so a plain
    // gain commit is accepted and read back.
    assert_eq!(ctl.set_tuner_gain(297), Ok(()));
    assert_eq!(ctl.tuner_gain(), 297);
}

#[test]
fn tuner_gains_returns_exactly_the_table() {
    let (ctl, _reader) = open(0).unwrap();
    let mut gains = [-1i32; 32];
    let n = ctl.tuner_gains(&mut gains);
    let expected = [
        0, 9, 14, 27, 37, 77, 87, 125, 144, 157, 166, 197, 207, 229, 254, 280, 297, 328, 338,
        364, 372, 386, 402, 421, 434, 439, 445, 480, 496,
    ];
    assert_eq!(n, expected.len());
    assert_eq!(&gains[..n], &expected[..]);
    // Nothing past the reported count was written.
    for i in n..32 {
        assert_eq!(gains[i], -1);
    }
    // The query is fresh each time, not cached: ask again into a dirty
    // buffer and get the same table.
    let mut again = [123i32; 32];
    let n2 = ctl.tuner_gains(&mut again);
    assert_eq!(n2, n);
    assert_eq!(&again[..n2], &expected[..]);
}

#[test]
fn reset_buffer_succeeds() {
    let (mut ctl, _reader) = open(0).unwrap();
    assert_eq!(ctl.reset_buffer(), Ok(()));
}

#[test]
fn copy_gain_table_writes_exact_prefix() {
    let table = vec![10, 20, 30];
    let mut buf = [7i32; 32];
    let n = rtlsdr_mt::session::copy_gain_table(&table, &mut buf);
    assert_eq!(n, 3);
    assert_eq!(&buf[..3], &[10, 20, 30]);
    for i in 3..32 {
        assert_eq!(buf[i], 7);
    }
}
