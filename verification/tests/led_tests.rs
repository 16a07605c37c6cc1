use badge_demo::event::ButtonEvent;
use badge_demo::led::{led_color, rainbow_color, LedStrip, Rgb8, RAINBOW_LEN};

fn rgb(red: u8, green: u8, blue: u8) -> Rgb8 {
    Rgb8 { red, green, blue }
}

#[test]
fn every_event_has_exactly_its_fixed_color() {
    assert_eq!(led_color(ButtonEvent::Up), rgb(80, 0, 0));
    assert_eq!(led_color(ButtonEvent::Down), rgb(80, 80, 0));
    assert_eq!(led_color(ButtonEvent::Left), rgb(0, 80, 0));
    assert_eq!(led_color(ButtonEvent::Right), rgb(0, 80, 80));
    assert_eq!(led_color(ButtonEvent::Stick), rgb(0, 0, 80));
    assert_eq!(led_color(ButtonEvent::A), rgb(80, 0, 80));
    assert_eq!(led_color(ButtonEvent::B), rgb(80, 80, 80));
    assert_eq!(led_color(ButtonEvent::Start), rgb(0, 0, 0));
    assert_eq!(led_color(ButtonEvent::Select), rgb(120, 60, 30));
}

#[test]
fn color_lookup_is_deterministic() {
    for e in [ButtonEvent::Up, ButtonEvent::B, ButtonEvent::Select] {
        assert_eq!(led_color(e), led_color(e));
    }
}

#[test]
fn rainbow_cycles_through_six_colors() {
    let expected = [
        rgb(80, 0, 0),
        rgb(80, 80, 0),
        rgb(0, 80, 0),
        rgb(0, 80, 80),
        rgb(0, 0, 80),
        rgb(80, 0, 80),
    ];
    for step in 0..24u64 {
        assert_eq!(rainbow_color(step), expected[(step % RAINBOW_LEN) as usize]);
    }
    assert_eq!(rainbow_color(0), rainbow_color(RAINBOW_LEN));
}

#[test]
fn new_strip_is_dark() {
    let strip = LedStrip::new(5);
    assert_eq!(strip.len(), 5);
    for i in 0..5 {
        assert_eq!(strip.get(i), rgb(0, 0, 0));
    }
}

#[test]
fn fill_writes_every_cell() {
    let mut strip = LedStrip::new(12);
    strip.fill(rgb(0, 80, 80));
    assert_eq!(strip.len(), 12);
    for i in 0..12 {
        assert_eq!(strip.get(i), rgb(0, 80, 80));
    }
    strip.fill(rgb(120, 60, 30));
    for i in 0..12 {
        assert_eq!(strip.get(i), rgb(120, 60, 30));
    }
}
