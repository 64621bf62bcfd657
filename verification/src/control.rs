//! Front-panel logic: the rotary encoder that picks the tone frequency and
//! the push button that flips between the two display pages.

use vstd::prelude::*;

verus! {

/// Lowest tone frequency the encoder can select, in hertz.
pub const FREQ_MIN_HZ: u32 = 20;

/// Highest tone frequency the encoder can select, in hertz.
pub const FREQ_MAX_HZ: u32 = 20_000;

/// Tone frequency at power-up, in hertz.
pub const INITIAL_FREQ_HZ: u32 = 1_000;

/// The two display pages.
#[derive(Clone, Copy, PartialEq, Eq, Debug, Structural)]
pub enum DisplayMode {
    /// The tone generator page: a single synthetic peak at the chosen frequency.
    ChooseFreq,
    /// The analyser page: the measured spectrum of the audio input.
    SpectrumAnalyse,
}

impl DisplayMode {
    /// The other page.
    pub open spec fn spec_toggled(self) -> DisplayMode {
        match self {
            DisplayMode::ChooseFreq => DisplayMode::SpectrumAnalyse,
            DisplayMode::SpectrumAnalyse => DisplayMode::ChooseFreq,
        }
    }

    /// Returns the other page.
    pub fn toggled(self) -> (r: DisplayMode)
        ensures
            r == self.spec_toggled(),
    {
        match self {
            DisplayMode::ChooseFreq => DisplayMode::SpectrumAnalyse,
            DisplayMode::SpectrumAnalyse => DisplayMode::ChooseFreq,
        }
    }
}


/// The title shown in the corner of each page.
pub fn page_label(mode: DisplayMode) -> (r: &'static str)
    ensures
        mode == DisplayMode::ChooseFreq ==> r@ == "choose freq"@,
        mode == DisplayMode::SpectrumAnalyse ==> r@ == "fft analyse"@,
{
    match mode {
        DisplayMode::ChooseFreq => "choose freq",
        DisplayMode::SpectrumAnalyse => "fft analyse",
    }
}

/// How quickly the encoder was turned, judged by the time since the previous
/// detent; a faster turn takes a larger logarithmic frequency step.
#[derive(Clone, Copy, PartialEq, Eq, Debug, Structural)]
pub enum TurnSpeed {
    /// Less than 50 ms since the previous detent.
    Fast,
    /// From 50 ms to less than 150 ms.
    Medium,
    /// 150 ms or more.
    Slow,
}

/// The speed class of a detent that came `elapsed_ms` after the previous one.
pub open spec fn spec_turn_speed(elapsed_ms: u64) -> TurnSpeed {
    if elapsed_ms < 50 {
        TurnSpeed::Fast
    } else if elapsed_ms < 150 {
        TurnSpeed::Medium
    } else {
        TurnSpeed::Slow
    }
}

/// Classifies a detent by the time since the previous one.
pub fn turn_speed(elapsed_ms: u64) -> (r: TurnSpeed)
    ensures
        r == spec_turn_speed(elapsed_ms),
{
    if elapsed_ms < 50 {
        TurnSpeed::Fast
    } else if elapsed_ms < 150 {
        TurnSpeed::Medium
    } else {
        TurnSpeed::Slow
    }
}

/// Size rank of the step a speed class takes: a faster turn takes a larger
/// step.
pub open spec fn step_rank(speed: TurnSpeed) -> int {
    match speed {
        TurnSpeed::Fast => 2,
        TurnSpeed::Medium => 1,
        TurnSpeed::Slow => 0,
    }
}

/// Turning faster never takes a smaller step: the less time since the
/// previous detent, the higher (or equal) the speed class.
pub proof fn lemma_faster_turn_larger_step(quick_ms: u64, slow_ms: u64)
    requires
        quick_ms <= slow_ms,
    ensures
        step_rank(spec_turn_speed(quick_ms)) >= step_rank(spec_turn_speed(slow_ms)),
{
}

/// The way the encoder was turned.
#[derive(Clone, Copy, PartialEq, Eq, Debug, Structural)]
pub enum Direction {
    /// The frequency goes up (clock and data lines differ after the clock edge).
    Up,
    /// The frequency goes down (clock and data lines agree).
    Down,
}

/// One detent of the encoder.
#[derive(Clone, Copy, PartialEq, Eq, Debug, Structural)]
pub struct Turn {
    pub direction: Direction,
    pub speed: TurnSpeed,
}

/// The frequency after a turn, given the current frequency already scaled by
/// the step factor of the turn (multiplied going up, divided going down):
/// going up it is capped at `FREQ_MAX_HZ`, going down it is floored at
/// `FREQ_MIN_HZ`.
pub open spec fn spec_turned_frequency(direction: Direction, scaled_hz: u32) -> u32 {
    match direction {
        Direction::Up => if scaled_hz < FREQ_MAX_HZ { scaled_hz } else { FREQ_MAX_HZ },
        Direction::Down => if scaled_hz > FREQ_MIN_HZ { scaled_hz } else { FREQ_MIN_HZ },
    }
}

/// The state the main loop keeps between two polls of the front panel.
#[derive(Clone, Copy, PartialEq, Eq, Debug, Structural)]
pub struct Controls {
    /// Level of the encoder clock line at the previous poll.
    pub last_clk: bool,
    /// Level of the button line at the previous poll (high when released).
    pub last_sw: bool,
    /// Whether a press has been seen that has not been released yet.
    pub button_pressed: bool,
    /// The page on show.
    pub mode: DisplayMode,
    /// The tone frequency, in hertz.
    pub freq_hz: u32,
}

impl Controls {
    /// The state at power-up, given the levels the encoder clock and the
    /// button lines have then.
    pub fn new(clk: bool, sw: bool) -> (c: Controls)
        ensures
            c == (Controls {
                last_clk: clk,
                last_sw: sw,
                button_pressed: false,
                mode: DisplayMode::ChooseFreq,
                freq_hz: INITIAL_FREQ_HZ,
            }),
    {
        Controls {
            last_clk: clk,
            last_sw: sw,
            button_pressed: false,
            mode: DisplayMode::ChooseFreq,
            freq_hz: INITIAL_FREQ_HZ,
        }
    }

    /// One poll of the encoder: any change of the clock line is a detent, going
    /// up when the data line then differs from the clock line. The clock level
    /// is remembered for the next poll.
    pub open spec fn spec_encoder(self, clk_now: bool, dt_now: bool, elapsed_ms: u64) -> (
        Controls,
        Option<Turn>,
    ) {
        let next = Controls { last_clk: clk_now, ..self };
        if clk_now != self.last_clk {
            let direction = if clk_now != dt_now {
                Direction::Up
            } else {
                Direction::Down
            };
            (next, Some(Turn { direction, speed: spec_turn_speed(elapsed_ms) }))
        } else {
            (next, None)
        }
    }

    /// Polls the encoder with the current line levels and the time since the
    /// previous detent; returns the detent, if there was one.
    pub fn encoder(&mut self, clk_now: bool, dt_now: bool, elapsed_ms: u64) -> (turn: Option<Turn>)
        ensures
            (*final(self), turn) == old(self).spec_encoder(clk_now, dt_now, elapsed_ms),
    {
        let changed = clk_now != self.last_clk;
        self.last_clk = clk_now;
        if changed {
            let direction = if clk_now != dt_now {
                Direction::Up
            } else {
                Direction::Down
            };
            Some(Turn { direction, speed: turn_speed(elapsed_ms) })
        } else {
            None
        }
    }

    /// Sets the frequency after a detent in `direction`, from the current
    /// frequency scaled by the step factor of the detent.
    pub fn apply_turn(&mut self, direction: Direction, scaled_hz: u32)
        ensures
            *final(self) == (Controls {
                freq_hz: spec_turned_frequency(direction, scaled_hz),
                ..*old(self)
            }),
    {
        self.freq_hz = match direction {
            Direction::Up => if scaled_hz < FREQ_MAX_HZ {
                scaled_hz
            } else {
                FREQ_MAX_HZ
            },
            Direction::Down => if scaled_hz > FREQ_MIN_HZ {
                scaled_hz
            } else {
                FREQ_MIN_HZ
            },
        };
    }

    /// One poll of the button: a falling edge records a press; a rising edge
    /// after a recorded press flips the page and clears the press. The
    /// boolean tells whether the page flipped.
    pub open spec fn spec_button(self, sw_now: bool) -> (Controls, bool) {
        let pressed = if !sw_now && self.last_sw {
            true
        } else {
            self.button_pressed
        };
        if sw_now && !self.last_sw && pressed {
            (
                Controls {
                    last_sw: sw_now,
                    button_pressed: false,
                    mode: self.mode.spec_toggled(),
                    ..self
                },
                true,
            )
        } else {
            (Controls { last_sw: sw_now, button_pressed: pressed, ..self }, false)
        }
    }

    /// Polls the button with the current line level (high when released);
    /// returns whether the page flipped, in which case the caller redraws it.
    pub fn button(&mut self, sw_now: bool) -> (switched: bool)
        ensures
            (*final(self), switched) == old(self).spec_button(sw_now),
    {
        if !sw_now && self.last_sw {
            self.button_pressed = true;
        }
        let switched = sw_now && !self.last_sw && self.button_pressed;
        if switched {
            self.mode = self.mode.toggled();
            self.button_pressed = false;
        }
        self.last_sw = sw_now;
        switched
    }
}

/// Flipping the page twice gives the page back.
pub proof fn lemma_toggle_involutive(mode: DisplayMode)
    ensures
        mode.spec_toggled().spec_toggled() == mode,
        mode.spec_toggled() != mode,
{
}

/// A detent never takes the frequency out of `FREQ_MIN_HZ..=FREQ_MAX_HZ`,
/// given that scaling by a step factor above one does not lower the frequency
/// going up and does not raise it going down.
pub proof fn lemma_turn_stays_in_range(freq_hz: u32, direction: Direction, scaled_hz: u32)
    requires
        FREQ_MIN_HZ <= freq_hz <= FREQ_MAX_HZ,
        direction == Direction::Up ==> scaled_hz >= freq_hz,
        direction == Direction::Down ==> scaled_hz <= freq_hz,
    ensures
        FREQ_MIN_HZ <= spec_turned_frequency(direction, scaled_hz) <= FREQ_MAX_HZ,
{
}

/// Going up never passes `FREQ_MAX_HZ` and going down never passes
/// `FREQ_MIN_HZ`, whatever the scaled frequency.
pub proof fn lemma_turn_respects_bound(scaled_hz: u32)
    ensures
        spec_turned_frequency(Direction::Up, scaled_hz) <= FREQ_MAX_HZ,
        spec_turned_frequency(Direction::Down, scaled_hz) >= FREQ_MIN_HZ,
{
}

/// A detent comes exactly when the clock line changed, and goes up exactly
/// when the data line then differs from the clock line.
pub proof fn lemma_detent_on_clock_change(c: Controls, clk_now: bool, dt_now: bool, elapsed_ms: u64)
    ensures
        c.spec_encoder(clk_now, dt_now, elapsed_ms).1 is Some <==> clk_now != c.last_clk,
        c.spec_encoder(clk_now, dt_now, elapsed_ms).1 matches Some(t) ==> (t.direction
            == Direction::Up <==> clk_now != dt_now),
        c.spec_encoder(clk_now, dt_now, elapsed_ms).0.freq_hz == c.freq_hz,
        c.spec_encoder(clk_now, dt_now, elapsed_ms).0.mode == c.mode,
{
}

/// Pressing the released button and letting it go flips the page once: the
/// press itself flips nothing, the release flips it and forgets the press.
pub proof fn lemma_press_release_flips_once(c: Controls)
    requires
        c.last_sw,
    ensures
        ({
            let (pressed, flipped_on_press) = c.spec_button(false);
            let (released, flipped_on_release) = pressed.spec_button(true);
            &&& !flipped_on_press
            &&& flipped_on_release
            &&& released.mode == c.mode.spec_toggled()
            &&& !released.button_pressed
            &&& released.freq_hz == c.freq_hz
        }),
{
}

/// The page flips only on a release that follows a recorded press; holding
/// the button, or a release seen without its press (the button already down at
/// power-up), flips nothing.
pub proof fn lemma_flip_needs_press_and_release(c: Controls, sw_now: bool)
    ensures
        c.spec_button(sw_now).1 <==> (sw_now && !c.last_sw && c.button_pressed),
        !c.spec_button(sw_now).1 ==> c.spec_button(sw_now).0.mode == c.mode,
        c.spec_button(sw_now).0.freq_hz == c.freq_hz,
{
}

/// The speed class of a reported detent depends only on the time since the
/// previous detent, the same going up as going down: below 50 ms it is fast,
/// below 150 ms medium, otherwise slow.
pub proof fn lemma_detent_speed_from_elapsed_time(
    c: Controls,
    clk_now: bool,
    dt_now: bool,
    elapsed_ms: u64,
)
    ensures
        c.spec_encoder(clk_now, dt_now, elapsed_ms).1 matches Some(t) ==> {
            &&& (elapsed_ms < 50 ==> t.speed == TurnSpeed::Fast)
            &&& (50 <= elapsed_ms < 150 ==> t.speed == TurnSpeed::Medium)
            &&& (150 <= elapsed_ms ==> t.speed == TurnSpeed::Slow)
            &&& c.spec_encoder(clk_now, !dt_now, elapsed_ms).1 matches Some(u)
            &&& u.speed == t.speed
            &&& u.direction != t.direction
        },
{
}

/// A detent keeps a scaled frequency that lies in `FREQ_MIN_HZ..=FREQ_MAX_HZ`
/// unchanged in either direction; a value past a range end is replaced by
/// that end only: going up the result is the smaller of the scaled value and
/// `FREQ_MAX_HZ`, going down the larger of the scaled value and `FREQ_MIN_HZ`.
pub proof fn lemma_turn_keeps_in_range_values(direction: Direction, scaled_hz: u32)
    ensures
        FREQ_MIN_HZ <= scaled_hz <= FREQ_MAX_HZ ==> spec_turned_frequency(direction, scaled_hz)
            == scaled_hz,
        direction == Direction::Up ==> spec_turned_frequency(direction, scaled_hz)
            == vstd::math::min(scaled_hz as int, FREQ_MAX_HZ as int),
        direction == Direction::Down ==> spec_turned_frequency(direction, scaled_hz)
            == vstd::math::max(scaled_hz as int, FREQ_MIN_HZ as int),
{
}

} // verus!
