use lcd::control::{
    page_label, turn_speed, Controls, Direction, DisplayMode, Turn, TurnSpeed, FREQ_MAX_HZ,
    FREQ_MIN_HZ, INITIAL_FREQ_HZ,
};

#[test]
fn toggling_twice_gives_the_page_back() {
    for mode in [DisplayMode::ChooseFreq, DisplayMode::SpectrumAnalyse] {
        assert_ne!(mode.toggled(), mode);
        assert_eq!(mode.toggled().toggled(), mode);
    }
    assert_eq!(DisplayMode::ChooseFreq.toggled(), DisplayMode::SpectrumAnalyse);
}

#[test]
fn page_titles() {
    assert_eq!(page_label(DisplayMode::ChooseFreq), "choose freq");
    assert_eq!(page_label(DisplayMode::SpectrumAnalyse), "fft analyse");
}

#[test]
fn turn_speed_thresholds() {
    assert_eq!(turn_speed(0), TurnSpeed::Fast);
    assert_eq!(turn_speed(49), TurnSpeed::Fast);
    assert_eq!(turn_speed(50), TurnSpeed::Medium);
    assert_eq!(turn_speed(149), TurnSpeed::Medium);
    assert_eq!(turn_speed(150), TurnSpeed::Slow);
    assert_eq!(turn_speed(u64::MAX), TurnSpeed::Slow);
}

#[test]
fn power_up_state() {
    let c = Controls::new(true, false);
    assert_eq!(
        c,
        Controls {
            last_clk: true,
            last_sw: false,
            button_pressed: false,
            mode: DisplayMode::ChooseFreq,
            freq_hz: INITIAL_FREQ_HZ,
        }
    );
    assert_eq!(INITIAL_FREQ_HZ, 1000);
}

#[test]
fn encoder_reports_a_detent_only_on_a_clock_change() {
    let mut c = Controls::new(true, true);
    assert_eq!(c.encoder(true, false, 10), None);
    assert_eq!(
        c.encoder(false, true, 10),
        Some(Turn { direction: Direction::Up, speed: TurnSpeed::Fast })
    );
    assert!(!c.last_clk);
    assert_eq!(
        c.encoder(true, true, 100),
        Some(Turn { direction: Direction::Down, speed: TurnSpeed::Medium })
    );
    assert_eq!(c.encoder(true, true, 500), None);
    assert_eq!(
        c.encoder(false, false, 500),
        Some(Turn { direction: Direction::Down, speed: TurnSpeed::Slow })
    );
    assert_eq!(c.freq_hz, INITIAL_FREQ_HZ);
}

#[test]
fn turns_are_capped_at_the_range_ends() {
    let mut c = Controls::new(false, true);
    c.apply_turn(Direction::Up, 1500);
    assert_eq!(c.freq_hz, 1500);
    c.apply_turn(Direction::Up, 25_000);
    assert_eq!(c.freq_hz, FREQ_MAX_HZ);
    c.apply_turn(Direction::Up, 20_000);
    assert_eq!(c.freq_hz, 20_000);
    c.apply_turn(Direction::Down, 13_333);
    assert_eq!(c.freq_hz, 13_333);
    c.apply_turn(Direction::Down, 5);
    assert_eq!(c.freq_hz, FREQ_MIN_HZ);
    c.apply_turn(Direction::Down, 0);
    assert_eq!(c.freq_hz, 20);
    // A step up from the bottom stays in range, as the range law promises.
    c.apply_turn(Direction::Up, 21);
    assert_eq!(c.freq_hz, 21);
}

#[test]
fn press_and_release_flips_the_page_once() {
    let mut c = Controls::new(false, true);
    assert!(!c.button(false));
    assert!(c.button_pressed);
    assert_eq!(c.mode, DisplayMode::ChooseFreq);
    assert!(!c.button(false));
    assert!(c.button(true));
    assert_eq!(c.mode, DisplayMode::SpectrumAnalyse);
    assert!(!c.button_pressed);
    assert!(!c.button(true));
    assert!(!c.button(false));
    assert!(c.button(true));
    assert_eq!(c.mode, DisplayMode::ChooseFreq);
}

#[test]
fn release_without_a_seen_press_flips_nothing() {
    // The button is already down at power-up.
    let mut c = Controls::new(false, false);
    assert!(!c.button(true));
    assert_eq!(c.mode, DisplayMode::ChooseFreq);
    assert!(c.last_sw);
    assert!(!c.button_pressed);
}
