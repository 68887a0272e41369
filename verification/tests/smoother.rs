use rma::Bar;
use rma::Error;
use rma::RelativeMovingAverage;

/// Feeds an `f64` sample through the bit-pattern interface.
fn feed(s: &mut RelativeMovingAverage, x: f64) -> f64 {
    f64::from_bits(s.next(x.to_bits()))
}

#[test]
fn test_new() {
    assert!(RelativeMovingAverage::new(0).is_err());
    assert!(RelativeMovingAverage::new(1).is_ok());
}

#[test]
fn test_next() {
    let mut rma = RelativeMovingAverage::new(3).unwrap();

    assert_eq!(feed(&mut rma, 2.0), 2.0);
    assert_eq!(feed(&mut rma, 5.0), 2.75);
    assert_eq!(feed(&mut rma, 1.0), 2.3125);
    assert_eq!(feed(&mut rma, 6.25), 3.296875);

    let mut rma = RelativeMovingAverage::new(3).unwrap();
    let bar1 = Bar::new().with_close(2.0f64.to_bits());
    let bar2 = Bar::new().with_close(5.0f64.to_bits());
    assert_eq!(f64::from_bits(rma.next_record(&bar1)), 2.0);
    assert_eq!(f64::from_bits(rma.next_record(&bar2)), 2.75);
}

#[test]
fn test_reset() {
    let mut ema = RelativeMovingAverage::new(5).unwrap();

    assert_eq!(feed(&mut ema, 4.0), 4.0);
    feed(&mut ema, 10.0);
    feed(&mut ema, 15.0);
    feed(&mut ema, 20.0);
    assert_ne!(feed(&mut ema, 4.0), 4.0);

    ema.reset();
    assert_eq!(feed(&mut ema, 4.0), 4.0);
}

#[test]
fn test_default() {
    RelativeMovingAverage::default();
}

#[test]
fn test_display() {
    let ema = RelativeMovingAverage::new(7).unwrap();
    assert_eq!(ema.label(), "EMA(7)");
}

#[test]
fn test_new_error_variant() {
    assert_eq!(RelativeMovingAverage::new(0).unwrap_err(), Error::InvalidParameter);
    assert!(RelativeMovingAverage::new(u32::MAX).is_ok());
}

#[test]
fn test_length_accessor() {
    let rma = RelativeMovingAverage::new(14).unwrap();
    assert_eq!(rma.length(), 14);
    assert_eq!(RelativeMovingAverage::new(1).unwrap().length(), 1);
}

#[test]
fn test_default_equals_new_9() {
    let mut d = RelativeMovingAverage::default();
    let mut s = RelativeMovingAverage::new(9).unwrap();
    assert_eq!(d.length(), 9);
    for x in [3.5, -1.25, 0.0, 1e300, 7.75] {
        assert_eq!(feed(&mut d, x).to_bits(), feed(&mut s, x).to_bits());
    }
}

#[test]
fn test_first_feed_identity() {
    for length in [1u32, 2, 9, 1000, u32::MAX] {
        let mut rma = RelativeMovingAverage::new(length).unwrap();
        assert_eq!(feed(&mut rma, -123.456), -123.456);
    }
    let mut rma = RelativeMovingAverage::new(4).unwrap();
    let nan_bits = f64::NAN.to_bits();
    assert_eq!(rma.next(nan_bits), nan_bits);
}

#[test]
fn test_nan_propagates_when_seeded() {
    let mut rma = RelativeMovingAverage::new(3).unwrap();
    feed(&mut rma, 1.0);
    assert!(feed(&mut rma, f64::NAN).is_nan());
}

#[test]
fn test_reset_replays_first_output() {
    let mut rma = RelativeMovingAverage::new(7).unwrap();
    let first = feed(&mut rma, 42.5);
    feed(&mut rma, -3.0);
    feed(&mut rma, 8.125);
    rma.reset();
    assert_eq!(feed(&mut rma, 42.5), first);
    rma.reset();
    rma.reset();
    assert_eq!(feed(&mut rma, 42.5), first);
}

#[test]
fn test_record_matches_direct_feed() {
    let mut direct = RelativeMovingAverage::new(6).unwrap();
    let mut via_record = RelativeMovingAverage::new(6).unwrap();
    for x in [10.0, 11.5, -2.25, 0.5] {
        let expected = feed(&mut direct, x);
        let bar = Bar::new().with_close(x.to_bits());
        assert_eq!(f64::from_bits(via_record.next_record(&bar)), expected);
    }
}

#[test]
fn test_identical_sequences_identical_outputs() {
    let samples = [2.0, 5.0, 1.0, 6.25, -0.5, 1e-12, 9.75];
    let mut a = RelativeMovingAverage::new(3).unwrap();
    let mut b = RelativeMovingAverage::new(3).unwrap();
    for x in samples {
        assert_eq!(feed(&mut a, x).to_bits(), feed(&mut b, x).to_bits());
    }
}

#[test]
fn test_label_values() {
    assert_eq!(RelativeMovingAverage::new(1).unwrap().label(), "EMA(1)");
    assert_eq!(RelativeMovingAverage::new(9).unwrap().label(), "EMA(9)");
    assert_eq!(RelativeMovingAverage::new(10).unwrap().label(), "EMA(10)");
    assert_eq!(RelativeMovingAverage::new(123).unwrap().label(), "EMA(123)");
    assert_eq!(
        RelativeMovingAverage::new(u32::MAX).unwrap().label(),
        "EMA(4294967295)",
    );
}

#[test]
fn test_weight_matches_formula() {
    // period 1 gives weight 1/2: after seeding with 0.0, feeding 1.0 must
    // yield exactly 0.5; a smoother that ignored its weight could not.
    let mut rma = RelativeMovingAverage::new(1).unwrap();
    feed(&mut rma, 0.0);
    assert_eq!(feed(&mut rma, 1.0), 0.5);

    // period 3 gives weight 1/4.
    let mut rma = RelativeMovingAverage::new(3).unwrap();
    feed(&mut rma, 0.0);
    assert_eq!(feed(&mut rma, 1.0), 0.25);
}
