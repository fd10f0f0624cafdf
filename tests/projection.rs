use polo_weather::{project, Celsius, DisplayFact};

fn c(v: f32) -> Celsius {
    Celsius { bits: v.to_bits() }
}

#[test]
fn threshold_is_strict() {
    assert!(!c(27.0).exceeds_threshold());
    assert!(c(27.1).exceeds_threshold());
    assert!(c(f32::from_bits(27.0f32.to_bits() + 1)).exceeds_threshold());
    assert!(!c(26.9).exceeds_threshold());
}

#[test]
fn threshold_on_special_values() {
    assert!(c(f32::INFINITY).exceeds_threshold());
    assert!(!c(f32::NEG_INFINITY).exceeds_threshold());
    assert!(!c(f32::NAN).exceeds_threshold());
    assert!(!c(-f32::NAN).exceeds_threshold());
    assert!(!c(-30.0).exceeds_threshold());
    assert!(!c(0.0).exceeds_threshold());
    assert!(!c(-0.0).exceeds_threshold());
}

#[test]
fn projection_keeps_length_and_order() {
    let series = vec![c(12.0), c(27.0), c(31.5), c(-4.0), c(27.5)];
    let facts = project(&series);
    assert_eq!(facts.len(), series.len());
    let expected = [false, false, true, false, true];
    for i in 0..series.len() {
        assert_eq!(facts[i].value, series[i]);
        assert_eq!(facts[i].exceeds_threshold, expected[i]);
    }
}

#[test]
fn projection_of_empty_series() {
    assert!(project(&Vec::new()).is_empty());
}

#[test]
fn projection_of_single_hot_day() {
    assert_eq!(
        project(&vec![c(28.3)]),
        vec![DisplayFact { value: c(28.3), exceeds_threshold: true }]
    );
}
