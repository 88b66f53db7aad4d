use black_screen::Color;
use black_screen::convert;

#[test]
fn convert_matches_reference_values() {
    assert_eq!(convert(1500), Color { r: 255, g: 108, b: 0 });
    assert_eq!(convert(2500), Color { r: 255, g: 159, b: 70 });
    assert_eq!(convert(5000), Color { r: 255, g: 228, b: 205 });
    assert_eq!(convert(6600), Color { r: 255, g: 255, b: 255 });
}

#[test]
fn convert_is_deterministic() {
    let mut t: u32 = 1500;
    while t <= 6600 {
        assert_eq!(convert(t), convert(t));
        t += 100;
    }
}

#[test]
fn red_channel_saturated_across_domain() {
    let mut t: u32 = 1500;
    while t <= 6600 {
        assert_eq!(convert(t).r, 255);
        t += 100;
    }
}

#[test]
fn convert_drifts_warm_to_cool() {
    let warm = convert(1500);
    let neutral = convert(6600);
    assert!(warm.b < neutral.b);
    assert!(warm.g < neutral.g);
}
