use atk_mouse::types::{Decaseconds, Duration, Milliseconds, Seconds};

#[test]
fn milliseconds_store_unscaled() {
    let d = Duration::<Milliseconds>::new(250);
    assert_eq!(d.as_unit(), 250);
}

#[test]
fn seconds_scale_to_milliseconds() {
    let d = Duration::<Seconds>::new(2);
    assert_eq!(d.as_unit(), 2);
    let ms: Duration<Milliseconds> = d.convert();
    assert_eq!(ms.as_unit(), 2000);
}

#[test]
fn decaseconds_scale_down_to_seconds() {
    let d = Duration::<Decaseconds>::new(3);
    let s: Duration<Seconds> = d.convert();
    assert_eq!(s.as_unit(), 30);
}

#[test]
fn conversion_keeps_stored_magnitude() {
    let d = Duration::<Seconds>::new(90);
    let ms: Duration<Milliseconds> = d.convert();
    let back: Duration<Seconds> = ms.convert();
    assert_eq!(back.as_unit(), 90);
}

#[test]
fn construction_saturates() {
    // 500000 decaseconds would overflow the common base; the stored
    // value saturates and reads back as the largest representable.
    let d = Duration::<Decaseconds>::new(500_000);
    assert_eq!(d.as_unit(), u32::MAX / 10_000);
}

#[test]
fn rounding_is_downward() {
    let ms = Duration::<Milliseconds>::new(1999);
    let s: Duration<Seconds> = ms.convert();
    assert_eq!(s.as_unit(), 1);
}
