use swipe_nav::direction::{classify, SwipeDir};

#[test]
fn no_motion_is_north() {
    assert_eq!(classify(0, 0), SwipeDir::N);
}

#[test]
fn axis_directions() {
    assert_eq!(classify(10, 0), SwipeDir::E);
    assert_eq!(classify(0, 10), SwipeDir::N);
    assert_eq!(classify(-10, 0), SwipeDir::W);
    assert_eq!(classify(0, -10), SwipeDir::S);
}

#[test]
fn diagonal_directions() {
    assert_eq!(classify(10, 10), SwipeDir::NE);
    assert_eq!(classify(-10, 10), SwipeDir::NW);
    assert_eq!(classify(-10, -10), SwipeDir::SW);
    assert_eq!(classify(10, -10), SwipeDir::SE);
}

#[test]
fn magnitude_does_not_matter() {
    for (x, y) in [(3, 7), (-5, 1), (2, -9), (-4, -4), (1, 0), (7, 3)] {
        let d = classify(x, y);
        for c in [2, 10, 1000, 100_000] {
            assert_eq!(classify(x * c, y * c), d);
        }
    }
}

#[test]
fn seams_on_either_side() {
    // tan(22.5 degrees) is about 0.41421
    assert_eq!(classify(1000, 414), SwipeDir::E);
    assert_eq!(classify(1000, 415), SwipeDir::NE);
    assert_eq!(classify(415, 1000), SwipeDir::NE);
    assert_eq!(classify(414, 1000), SwipeDir::N);
    assert_eq!(classify(-414, 1000), SwipeDir::N);
    assert_eq!(classify(-415, 1000), SwipeDir::NW);
    assert_eq!(classify(-1000, 415), SwipeDir::NW);
    assert_eq!(classify(-1000, 414), SwipeDir::W);
    assert_eq!(classify(-1000, -414), SwipeDir::W);
    assert_eq!(classify(-1000, -415), SwipeDir::SW);
    assert_eq!(classify(-415, -1000), SwipeDir::SW);
    assert_eq!(classify(-414, -1000), SwipeDir::S);
    assert_eq!(classify(414, -1000), SwipeDir::S);
    assert_eq!(classify(415, -1000), SwipeDir::SE);
    assert_eq!(classify(1000, -415), SwipeDir::SE);
    assert_eq!(classify(1000, -414), SwipeDir::E);
}

#[test]
fn seams_agree_with_atan2() {
    for x in -60i32..=60 {
        for y in -60i32..=60 {
            if x == 0 && y == 0 {
                continue;
            }
            let mut a = (y as f64).atan2(x as f64).to_degrees();
            if a < 0.0 {
                a += 360.0;
            }
            let expected = if (22.5..67.5).contains(&a) {
                SwipeDir::NE
            } else if (67.5..112.5).contains(&a) {
                SwipeDir::N
            } else if (112.5..157.5).contains(&a) {
                SwipeDir::NW
            } else if (157.5..202.5).contains(&a) {
                SwipeDir::W
            } else if (202.5..247.5).contains(&a) {
                SwipeDir::SW
            } else if (247.5..292.5).contains(&a) {
                SwipeDir::S
            } else if (292.5..337.5).contains(&a) {
                SwipeDir::SE
            } else {
                SwipeDir::E
            };
            assert_eq!(classify(x, y), expected, "({}, {})", x, y);
        }
    }
}

#[test]
fn extreme_motion() {
    assert_eq!(classify(i32::MAX, i32::MAX), SwipeDir::NE);
    assert_eq!(classify(i32::MIN, 0), SwipeDir::W);
    assert_eq!(classify(i32::MIN, i32::MIN), SwipeDir::SW);
    assert_eq!(classify(i32::MAX, i32::MIN), SwipeDir::SE);
    assert_eq!(classify(0, i32::MIN), SwipeDir::S);
}
