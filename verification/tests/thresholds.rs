use chord2key::constants::AbsAxisCode;
use chord2key::events::AbsAxisEvent;
use chord2key::thresholds::{
    AllAxisThresholds, AxisThreshold, AxisThresholds, ThresholdType, ThresholdedAxis,
};

/// The original dead-zone merge check: a looser same-direction boundary
/// replaces the stored one, a stricter one leaves it, and opposite
/// directions never interact.
#[test]
fn axis_thresholds_loose_add() {
    let threshold1 = AxisThreshold { dir: ThresholdType::Greater, threshold: 30 };
    let mut thresholds = AxisThresholds { first: threshold1, second: None };

    assert_eq!(thresholds.first.threshold, 30);

    thresholds.loose_add(AxisThreshold { dir: ThresholdType::Greater, threshold: 15 });

    assert_eq!(thresholds.first.threshold, 15);

    thresholds.loose_add(AxisThreshold { dir: ThresholdType::Lesser, threshold: -30 });

    assert_eq!(thresholds.first.threshold, 15);
    assert_eq!(thresholds.second.unwrap().threshold, -30);

    thresholds.loose_add(AxisThreshold { dir: ThresholdType::Lesser, threshold: -15 });

    assert_eq!(thresholds.first.threshold, 15);
    assert_eq!(thresholds.second.unwrap().threshold, -15);

    thresholds.loose_add(AxisThreshold { dir: ThresholdType::Lesser, threshold: -45 });

    assert_eq!(thresholds.first.threshold, 15);
    assert_eq!(thresholds.second.unwrap().threshold, -15);
}

/// A Greater boundary passes at or above its value, a Lesser one at or
/// below.
#[test]
fn is_passing_boundaries() {
    let greater = AxisThreshold { dir: ThresholdType::Greater, threshold: 2000 };
    assert!(greater.is_passing(&AbsAxisEvent::new(AbsAxisCode::ABS_X, 2005)));
    assert!(greater.is_passing(&AbsAxisEvent::new(AbsAxisCode::ABS_X, 2000)));
    assert!(!greater.is_passing(&AbsAxisEvent::new(AbsAxisCode::ABS_X, 1995)));

    let lesser = AxisThreshold { dir: ThresholdType::Lesser, threshold: -2000 };
    assert!(lesser.is_passing(&AbsAxisEvent::new(AbsAxisCode::ABS_X, -2000)));
    assert!(!lesser.is_passing(&AbsAxisEvent::new(AbsAxisCode::ABS_X, -1999)));
}

/// Merging the same boundary twice is the same as merging it once.
#[test]
fn loose_add_idempotent() {
    let t = AxisThreshold { dir: ThresholdType::Greater, threshold: 10 };
    let mut once = AxisThresholds { first: AxisThreshold { dir: ThresholdType::Greater, threshold: 30 }, second: None };
    once.loose_add(t);
    let mut twice = once;
    twice.loose_add(t);
    assert_eq!(once, twice);
}

/// The full table answers the passing identity, its boundary value, and
/// nothing inside the dead zone or on an unconfigured axis.
#[test]
fn all_axis_thresholds_get_passing() {
    let a_a_t = AllAxisThresholds::init(vec![
        (AbsAxisCode::ABS_X, AxisThreshold { dir: ThresholdType::Greater, threshold: 2000 }),
        (AbsAxisCode::ABS_X, AxisThreshold { dir: ThresholdType::Lesser, threshold: -2000 }),
    ]);

    assert_eq!(
        a_a_t.get_passing(&AbsAxisEvent::new(AbsAxisCode::ABS_X, 4000)),
        Some(ThresholdedAxis::new(AbsAxisCode::ABS_X, ThresholdType::Greater))
    );
    assert_eq!(
        a_a_t.get_passing_with_state(&AbsAxisEvent::new(AbsAxisCode::ABS_X, -4000)),
        Some((ThresholdedAxis::new(AbsAxisCode::ABS_X, ThresholdType::Lesser), -2000))
    );
    assert_eq!(a_a_t.get_passing(&AbsAxisEvent::new(AbsAxisCode::ABS_X, 0)), None);
    assert_eq!(a_a_t.get_passing(&AbsAxisEvent::new(AbsAxisCode::ABS_Y, 4000)), None);
    assert!(a_a_t.has_threshold(&AbsAxisEvent::new(AbsAxisCode::ABS_X, 0)));
    assert!(!a_a_t.has_threshold(&AbsAxisEvent::new(AbsAxisCode::ABS_Y, 0)));
    assert_eq!(a_a_t.codes(), vec![AbsAxisCode::ABS_X]);
}

/// Both potential identities of an axis, independent of configuration.
#[test]
fn all_possible_identities() {
    let (p1, p2) = ThresholdedAxis::all_possible(&AbsAxisEvent::new(AbsAxisCode::ABS_X, 2000));
    assert_ne!(p1, p2);
    assert_eq!(p1, ThresholdedAxis::new(AbsAxisCode::ABS_X, ThresholdType::Greater));
    assert_eq!(p2, ThresholdedAxis::new(AbsAxisCode::ABS_X, ThresholdType::Lesser));
    assert_eq!(p1.opposite(), p2);
    assert_eq!(p1.threshold(), ThresholdType::Greater);
    assert_eq!(p1.code(), AbsAxisCode::ABS_X);
}
