//! Tests for the constrained scalar wrappers: boundary inclusion,
//! rejection just outside each closed interval, and the lossless
//! round trip from raw value to wrapper and back.

use weatherstation::degrees::UDegree360;
use weatherstation::oktas::Oktas;
use weatherstation::percentage::UPercent100;

#[test]
fn percent_zero_is_accepted() {
    let p = UPercent100::try_from(0).unwrap();
    assert_eq!(u32::from(p), 0);
}

#[test]
fn percent_max_is_accepted() {
    let p = UPercent100::try_from(100).unwrap();
    assert_eq!(u32::from(p), 100);
}

#[test]
fn percent_above_max_is_rejected() {
    assert!(UPercent100::try_from(101).is_err());
}

#[test]
fn percent_far_above_max_is_rejected() {
    assert!(UPercent100::try_from(u32::MAX).is_err());
}

#[test]
fn percent_round_trip_is_exact() {
    for raw in 0..=100u32 {
        let p = UPercent100::try_from(raw).unwrap();
        assert_eq!(u32::from(p), raw);
    }
}

#[test]
fn percent_error_message() {
    let e = UPercent100::try_from(200).unwrap_err();
    assert_eq!(e.message(), "Percentage value is out of range.");
}

#[test]
fn degrees_zero_is_accepted() {
    let d = UDegree360::try_from(0).unwrap();
    assert_eq!(u32::from(d), 0);
}

#[test]
fn degrees_max_is_accepted() {
    let d = UDegree360::try_from(360).unwrap();
    assert_eq!(u32::from(d), 360);
}

#[test]
fn degrees_above_max_is_rejected() {
    assert!(UDegree360::try_from(361).is_err());
}

#[test]
fn degrees_round_trip_is_exact() {
    for raw in 0..=360u32 {
        let d = UDegree360::try_from(raw).unwrap();
        assert_eq!(u32::from(d), raw);
    }
}

#[test]
fn degrees_error_message() {
    let e = UDegree360::try_from(1000).unwrap_err();
    assert_eq!(e.message(), "Value is not a valid degrees value.");
}

#[test]
fn oktas_zero_is_accepted() {
    let o = Oktas::try_from(0).unwrap();
    assert_eq!(u32::from(o), 0);
}

#[test]
fn oktas_max_is_accepted() {
    let o = Oktas::try_from(8).unwrap();
    assert_eq!(u32::from(o), 8);
}

#[test]
fn oktas_above_max_is_rejected() {
    assert!(Oktas::try_from(9).is_err());
}

#[test]
fn oktas_round_trip_is_exact() {
    for raw in 0..=8u32 {
        let o = Oktas::try_from(raw).unwrap();
        assert_eq!(u32::from(o), raw);
    }
}

#[test]
fn oktas_error_message() {
    let e = Oktas::try_from(9).unwrap_err();
    assert_eq!(e.message(), "Value is not an Okta.");
}

#[test]
fn cloned_wrapper_observes_the_same_value() {
    let p = UPercent100::try_from(42).unwrap();
    let q = p.clone();
    assert_eq!(u32::from(q), 42);
    assert_eq!(u32::from(p), 42);
}
