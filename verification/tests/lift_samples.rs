use shuidui::lift_samples::{normalize_lift_samples, MAX_PROFILE_POINTS, MIN_PROFILE_POINTS};

fn harmonic_lifts(n: usize, max_lift: f64) -> Vec<f64> {
    (0..n)
        .map(|i| {
            let t = i as f64 / n as f64;
            max_lift * 0.5 * (1.0 - (2.0 * std::f64::consts::PI * t).cos())
        })
        .collect()
}

#[test]
fn test_vr_designer_profile_normalization() {
    let short_lifts = vec![0.1; 10];
    let profile = normalize_lift_samples(&short_lifts, 0.0);
    assert!(profile.len() >= 36, "短输入应补齐到至少36点");

    let long_lifts: Vec<f64> = (0..500).map(|i| 0.1 * (i as f64 / 500.0)).collect();
    let profile = normalize_lift_samples(&long_lifts, 0.0);
    assert!(profile.len() <= 360, "长输入应降采样到360点以内");
}

#[test]
fn normalization_pads_with_last_sample() {
    let out = normalize_lift_samples(&[0.0, 0.05, 0.1], 0.0);
    assert_eq!(out.len(), MIN_PROFILE_POINTS);
    assert_eq!(&out[..3], &[0.0, 0.05, 0.1]);
    assert!(out[3..].iter().all(|&x| x == 0.1));
}

#[test]
fn normalization_of_empty_curve() {
    let out = normalize_lift_samples(&[], 0.0f64);
    assert_eq!(out, vec![0.0; 36]);
}

#[test]
fn normalization_thins_long_curves() {
    let lifts: Vec<u32> = (0..1000).collect();
    let out = normalize_lift_samples(&lifts, 0);
    // 1000 -> 500 -> 250
    assert_eq!(out.len(), 250);
    assert_eq!(out[0], 0);
    assert_eq!(out[1], 4);
    assert_eq!(out[249], 996);
    let lifts: Vec<u32> = (0..361).collect();
    let out = normalize_lift_samples(&lifts, 0);
    assert_eq!(out.len(), 181);
    assert_eq!(out[180], 360);
}

#[test]
fn normalization_keeps_acceptable_curves() {
    for n in [MIN_PROFILE_POINTS, 72, MAX_PROFILE_POINTS] {
        let lifts = harmonic_lifts(n, 0.12);
        assert_eq!(normalize_lift_samples(&lifts, 0.0), lifts);
    }
}

#[test]
fn normalization_length_always_in_range() {
    for n in [0usize, 1, 2, 35, 36, 37, 359, 360, 361, 720, 721, 1441, 5000] {
        let lifts = vec![1u8; n];
        let out = normalize_lift_samples(&lifts, 0);
        assert!(out.len() >= MIN_PROFILE_POINTS && out.len() <= MAX_PROFILE_POINTS, "n = {}", n);
    }
}
