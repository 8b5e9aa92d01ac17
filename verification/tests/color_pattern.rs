use ws2812_strip::color::Rgb;
use ws2812_strip::frame::AnimationState;
use ws2812_strip::pattern::{rainbow, render_frame, select_pattern, PatternKind};

#[test]
fn pack_is_grb_ordered() {
    assert_eq!(Rgb::new(1, 2, 3).to_grb24(), 0x020103);
    assert_eq!(Rgb::new(255, 0, 0).to_grb24(), 0x00FF00);
    assert_eq!(Rgb::new(0, 255, 0).to_grb24(), 0xFF0000);
    assert_eq!(Rgb::new(0, 0, 255).to_grb24(), 0x0000FF);
    assert_eq!(Rgb::new(0, 0, 0).to_grb24(), 0x000000);
    assert_eq!(Rgb::new(255, 255, 255).to_grb24(), 0xFFFFFF);
}

#[test]
fn pack_matches_shift_formula() {
    let samples: Vec<(u8, u8, u8)> = vec![
        (0, 0, 0),
        (255, 255, 255),
        (1, 2, 3),
        (0x12, 0x34, 0x56),
        (200, 100, 50),
        (255, 0, 255),
    ];
    for (r, g, b) in samples {
        let expected = ((g as u32) << 16) | ((r as u32) << 8) | (b as u32);
        assert_eq!(Rgb::new(r, g, b).to_grb24(), expected);
        assert!(Rgb::new(r, g, b).to_grb24() < 0x1000000);
    }
}

#[test]
fn named_colors() {
    assert_eq!(Rgb::black(), Rgb::new(0, 0, 0));
    assert_eq!(Rgb::red(), Rgb::new(255, 0, 0));
    assert_eq!(Rgb::green(), Rgb::new(0, 255, 0));
    assert_eq!(Rgb::blue(), Rgb::new(0, 0, 255));
    assert_eq!(Rgb::white(), Rgb::new(255, 255, 255));
    assert_eq!(Rgb::yellow(), Rgb::new(255, 255, 0));
    assert_eq!(Rgb::cyan(), Rgb::new(0, 255, 255));
    assert_eq!(Rgb::magenta(), Rgb::new(255, 0, 255));
}

#[test]
fn hue_wheel_primaries() {
    assert_eq!(rainbow(0), Rgb::new(255, 0, 0));
    assert_eq!(rainbow(85), Rgb::new(0, 255, 0));
    assert_eq!(rainbow(170), Rgb::new(0, 0, 255));
}

#[test]
fn hue_wheel_ramps() {
    assert_eq!(rainbow(1), Rgb::new(252, 3, 0));
    assert_eq!(rainbow(84), Rgb::new(3, 252, 0));
    assert_eq!(rainbow(86), Rgb::new(0, 252, 3));
    assert_eq!(rainbow(169), Rgb::new(0, 3, 252));
    assert_eq!(rainbow(171), Rgb::new(3, 0, 252));
    assert_eq!(rainbow(255), Rgb::new(255, 0, 0));
}

#[test]
fn hue_wheel_channel_structure() {
    for p in 0..=255u8 {
        let c = rainbow(p);
        let zeros = [c.r, c.g, c.b].iter().filter(|&&v| v == 0).count();
        let seam = p == 0 || p == 85 || p == 170 || p == 255;
        assert_eq!(zeros, if seam { 2 } else { 1 }, "position {}", p);
        if p < 85 {
            assert_eq!(c.b, 0);
            assert_eq!(c.r as u32 + c.g as u32, 255);
        } else if p < 170 {
            assert_eq!(c.r, 0);
            assert_eq!(c.g as u32 + c.b as u32, 255);
        } else {
            assert_eq!(c.g, 0);
            assert_eq!(c.r as u32 + c.b as u32, 255);
        }
    }
}

#[test]
fn pattern_schedule() {
    assert_eq!(select_pattern(0), PatternKind::Wave);
    assert_eq!(select_pattern(49), PatternKind::Wave);
    assert_eq!(select_pattern(50), PatternKind::Solid);
    assert_eq!(select_pattern(99), PatternKind::Solid);
    assert_eq!(select_pattern(100), PatternKind::Chase);
    assert_eq!(select_pattern(149), PatternKind::Chase);
    assert_eq!(select_pattern(150), PatternKind::Sparkle);
    assert_eq!(select_pattern(199), PatternKind::Sparkle);
    assert_eq!(select_pattern(200), PatternKind::Wave);
    assert_eq!(select_pattern(255), PatternKind::Solid);
}

#[test]
fn pattern_schedule_periodic() {
    for s in 0..=55u8 {
        assert_eq!(select_pattern(s), select_pattern(s + 200));
    }
}

#[test]
fn wave_frame_is_scrolled_rainbow() {
    let strip = render_frame(PatternKind::Wave, 8, 0, 0);
    assert_eq!(strip.len(), 8);
    for (i, led) in strip.iter().enumerate() {
        let pos = (i * 255 / 8) % 256;
        assert_eq!(*led, rainbow(pos as u8));
    }
    let shifted = render_frame(PatternKind::Wave, 8, 0, 10);
    for (i, led) in shifted.iter().enumerate() {
        let pos = (10 + i * 255 / 8) % 256;
        assert_eq!(*led, rainbow(pos as u8));
    }
}

#[test]
fn solid_frame_is_single_hue() {
    let strip = render_frame(PatternKind::Solid, 8, 123, 42);
    assert_eq!(strip.len(), 8);
    for led in strip.iter() {
        assert_eq!(*led, rainbow(42));
    }
}

#[test]
fn chase_frame_single_lit_led() {
    // (step / 5) % n = (10 / 5) % 8 = 2
    let strip = render_frame(PatternKind::Chase, 8, 10, 0);
    for (i, led) in strip.iter().enumerate() {
        if i == 2 {
            assert_eq!(*led, rainbow(0));
            assert_ne!(*led, Rgb::black());
        } else {
            assert_eq!(*led, Rgb::black());
        }
    }
}

#[test]
fn sparkle_frame_single_white_led() {
    // (step * 17 mod 256) % n = (3 * 17) % 8 = 3
    let strip = render_frame(PatternKind::Sparkle, 8, 3, 99);
    for (i, led) in strip.iter().enumerate() {
        if i == 3 {
            assert_eq!(*led, Rgb::white());
        } else {
            assert_eq!(*led, Rgb::black());
        }
    }
    // wrapping multiply: step = 200 gives (3400 mod 256) % 8 = 72 % 8 = 0
    let wrapped = render_frame(PatternKind::Sparkle, 8, 200, 0);
    assert_eq!(wrapped[0], Rgb::white());
    for led in wrapped.iter().skip(1) {
        assert_eq!(*led, Rgb::black());
    }
}

#[test]
fn animation_counters_advance() {
    let mut s = AnimationState::new();
    assert_eq!((s.step, s.offset), (0, 0));
    s.advance();
    assert_eq!((s.step, s.offset), (1, 0));
    s.advance();
    s.advance();
    assert_eq!((s.step, s.offset), (3, 0));
    s.advance();
    // fourth step: offset jumps by 8
    assert_eq!((s.step, s.offset), (4, 8));
}

#[test]
fn animation_counters_wrap() {
    let mut s = AnimationState { step: 255, offset: 250 };
    s.advance();
    // step wraps to 0, which is divisible by 4, so offset wraps past 256
    assert_eq!(s.step, 0);
    assert_eq!(s.offset, 2);
}
