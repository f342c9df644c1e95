use led_blink::button::Button;
use led_blink::control::{
    Controller, Levels, Writes, BLUE_PIN, COLOR_BUTTON_PIN, GREEN_PIN, LIGHTING_BUTTON_PIN,
    RED_PIN, WHITE_PIN,
};
use led_blink::flash::Flasher;
use led_blink::led::Led;
use led_blink::mode::{Color, Lighting};

const NO_WRITES: Writes = Writes { red: None, green: None, blue: None, white: None };

fn press_and_release_lighting(c: &mut Controller, t: u64) {
    c.step(true, false, t);
    c.step(false, false, t + 10);
}

#[test]
fn one_press_release_advances_mode_and_four_wrap_around() {
    let mut c = Controller::new(0);
    assert_eq!(c.lighting.index(), 0);
    press_and_release_lighting(&mut c, 0);
    assert_eq!(c.lighting, Lighting::One);
    assert_eq!(c.lighting.index(), 1);
    press_and_release_lighting(&mut c, 20);
    press_and_release_lighting(&mut c, 40);
    press_and_release_lighting(&mut c, 60);
    assert_eq!(c.lighting, Lighting::Off);
    assert_eq!(c.lighting.index(), 0);
}

#[test]
fn held_press_never_advances() {
    let mut c = Controller::new(0);
    for i in 0..100u64 {
        c.step(true, true, i * 10);
        assert_eq!(c.lighting, Lighting::Off);
        assert_eq!(c.color, Color::All);
    }
    c.step(false, true, 1000);
    assert_eq!(c.lighting, Lighting::One);
    assert_eq!(c.color, Color::All);
}

#[test]
fn color_button_cycles_five_settings() {
    let mut c = Controller::new(0);
    let expected = [Color::Red, Color::Green, Color::Blue, Color::White, Color::All];
    for (i, want) in expected.iter().enumerate() {
        let t = (i as u64) * 20;
        c.step(false, true, t);
        c.step(false, false, t + 10);
        assert_eq!(c.color, *want);
    }
}

#[test]
fn all_lines_flash_in_lockstep_at_two_hundred_ms() {
    let mut c = Controller::new(0);
    press_and_release_lighting(&mut c, 0);
    press_and_release_lighting(&mut c, 20);
    assert_eq!(c.lighting, Lighting::Two);
    assert_eq!(c.color, Color::All);
    let mut level = false;
    let mut t: u64 = 40;
    while t <= 1000 {
        let w = c.step(false, false, t);
        if t % 200 == 0 {
            level = !level;
            let v = Some(level);
            assert_eq!(w, Writes { red: v, green: v, blue: v, white: v });
        } else {
            assert_eq!(w, NO_WRITES);
        }
        assert_eq!(c.red.is_on, level);
        assert_eq!(c.green.is_on, level);
        assert_eq!(c.blue.is_on, level);
        assert_eq!(c.white.is_on, level);
        t += 10;
    }
}

#[test]
fn single_color_flashes_alone() {
    let mut c = Controller::new(0);
    c.step(false, true, 0);
    c.step(false, false, 10);
    assert_eq!(c.color, Color::Red);
    press_and_release_lighting(&mut c, 20);
    assert_eq!(c.lighting, Lighting::One);
    let w = c.step(false, false, 99);
    assert_eq!(w, NO_WRITES);
    let w = c.step(false, false, 100);
    assert_eq!(w, Writes { red: Some(true), green: None, blue: None, white: None });
}

#[test]
fn lighting_off_leaves_outputs_alone() {
    let mut c = Controller::new(0);
    for i in 0..50u64 {
        assert_eq!(c.step(false, false, i * 100), NO_WRITES);
    }
    assert!(!c.flasher.phase);
    assert_eq!(c.flasher.last_flip_ms, 0);
}

#[test]
fn controller_starts_on_fixed_pins() {
    let c = Controller::new(7);
    assert_eq!(c.red.pin_number, RED_PIN);
    assert_eq!(c.green.pin_number, GREEN_PIN);
    assert_eq!(c.blue.pin_number, BLUE_PIN);
    assert_eq!(c.white.pin_number, WHITE_PIN);
    assert_eq!(RED_PIN, 14);
    assert_eq!(GREEN_PIN, 15);
    assert_eq!(BLUE_PIN, 18);
    assert_eq!(WHITE_PIN, 23);
    assert_eq!(c.lighting_button.pin_number, LIGHTING_BUTTON_PIN);
    assert_eq!(c.color_button.pin_number, COLOR_BUTTON_PIN);
    assert_eq!(LIGHTING_BUTTON_PIN, 3);
    assert_eq!(COLOR_BUTTON_PIN, 2);
    assert_eq!(c.flasher, Flasher { phase: false, last_flip_ms: 7 });
}

#[test]
fn repeated_set_writes_once() {
    let mut led = Led::new(14);
    assert!(!led.is_on);
    assert_eq!(led.set(true), Some(true));
    assert_eq!(led.set(true), None);
    assert_eq!(led.set(true), None);
    assert_eq!(led.set(false), Some(false));
    assert_eq!(led.set(false), None);
    assert!(!led.is_on);
    assert_eq!(led.pin_number, 14);
}

#[test]
fn button_detects_press_then_release() {
    let mut b = Button::new(3);
    assert!(!b.is_pressed());
    assert!(!b.is_pressed_up(true));
    b.update(true);
    assert!(b.is_pressed());
    assert!(!b.is_pressed_up(false));
    assert!(b.is_pressed_up(true));
    b.update(false);
    assert!(!b.is_pressed());
    assert!(!b.is_pressed_up(true));
}

#[test]
fn flasher_flips_once_per_threshold() {
    let mut f = Flasher::new(0);
    assert!(!f.tick(99, 100));
    assert!(!f.phase);
    assert!(f.tick(100, 100));
    assert!(f.phase);
    assert_eq!(f.last_flip_ms, 100);
    assert!(!f.tick(150, 100));
    assert!(!f.tick(199, 100));
    assert!(f.tick(210, 100));
    assert!(!f.phase);
    assert_eq!(f.last_flip_ms, 210);
    assert!(!f.tick(5, 100));
    assert_eq!(f.last_flip_ms, 210);
}

#[test]
fn mode_indices_and_thresholds() {
    assert_eq!(Lighting::Off.threshold_ms(), 0);
    assert_eq!(Lighting::One.threshold_ms(), 100);
    assert_eq!(Lighting::Two.threshold_ms(), 200);
    assert_eq!(Lighting::Three.threshold_ms(), 300);
    assert_eq!(Lighting::Three.next(), Lighting::Off);
    assert_eq!(Color::All.next(), Color::Red);
    assert_eq!(Color::White.index(), 3);
    assert_eq!(Lighting::from_index(2), Some(Lighting::Two));
    assert_eq!(Lighting::from_index(4), None);
    assert_eq!(Color::from_index(4), Some(Color::All));
    assert_eq!(Color::from_index(5), None);
}

#[test]
fn levels_follow_color_and_phase() {
    assert_eq!(
        Levels::of(Color::Blue, true),
        Levels { red: false, green: false, blue: true, white: false }
    );
    assert_eq!(
        Levels::of(Color::All, true),
        Levels { red: true, green: true, blue: true, white: true }
    );
    assert_eq!(
        Levels::of(Color::All, false),
        Levels { red: false, green: false, blue: false, white: false }
    );
}
