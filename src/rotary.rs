//! Decoding of a quadrature rotary encoder with an integrated pushbutton,
//! driven by one sample of its three lines per poll.
use vstd::prelude::*;

verus! {

/// Transition buffer of one detent in the increasing direction: phase states
/// 3, 1, 0, 2 in a row. Calibration data of the encoder in use.
pub const INCREMENT_PATTERN: u8 = 210;

/// Transition buffer of one detent in the decreasing direction: phase states
/// 3, 2, 0, 1 in a row. Calibration data of the encoder in use.
pub const DECREMENT_PATTERN: u8 = 225;

/// The two-bit phase value of a sample: A is the high bit, B the low one.
pub open spec fn phase_of(a: bool, b: bool) -> u8 {
    ((if a { 2u8 } else { 0u8 }) + (if b { 1u8 } else { 0u8 })) as u8
}

/// Decoder state: the latched press, the button's last level, the rolling
/// buffer of phase states and the accumulated position.
pub struct RotaryEncoder {
    pub pressed: bool,
    pub was_down: bool,
    pub buffer: u8,
    pub position: i32,
}

/// One sample of the three lines: button, phase A, phase B.
pub type Sample = (bool, bool, bool);

impl RotaryEncoder {
    /// Whether phase (`a`, `b`) differs from the last one in the buffer, so that
    /// it is shifted in.
    pub open spec fn shifts(&self, a: bool, b: bool) -> bool {
        self.buffer & 3 != phase_of(a, b)
    }

    /// The buffer after phase (`a`, `b`) was shifted in.
    pub open spec fn shifted(&self, a: bool, b: bool) -> u8 {
        ((self.buffer << 2u8) | phase_of(a, b)) as u8
    }

    /// The state after one poll that sampled `s`.
    pub open spec fn step(self, s: Sample) -> RotaryEncoder {
        let (button, a, b) = s;
        let pressed = if !button && self.was_down { true } else { self.pressed };
        let was_down = button;
        if self.shifts(a, b) {
            let buffer = self.shifted(a, b);
            let position = if buffer == INCREMENT_PATTERN && self.position < i32::MAX {
                (self.position + 1) as i32
            } else if buffer == DECREMENT_PATTERN && self.position > i32::MIN {
                (self.position - 1) as i32
            } else {
                self.position
            };
            RotaryEncoder { pressed, was_down, buffer, position }
        } else {
            RotaryEncoder { pressed, was_down, buffer: self.buffer, position: self.position }
        }
    }

    /// Whether polling with `s` shifts in a phase that completes `pattern`.
    pub open spec fn completes(self, s: Sample, pattern: u8) -> bool {
        self.shifts(s.1, s.2) && self.shifted(s.1, s.2) == pattern
    }

    /// The state after polling with each of `samples` in turn.
    pub open spec fn run(self, samples: Seq<Sample>) -> RotaryEncoder
        decreases samples.len(),
    {
        if samples.len() == 0 {
            self
        } else {
            self.step(samples[0]).run(samples.drop_first())
        }
    }

    /// Whether no poll of `samples`, taken in turn from this state, completes
    /// `pattern`.
    pub open spec fn never_completes(self, samples: Seq<Sample>, pattern: u8) -> bool
        decreases samples.len(),
    {
        if samples.len() == 0 {
            true
        } else {
            !self.completes(samples[0], pattern) && self.step(samples[0]).never_completes(
                samples.drop_first(),
                pattern,
            )
        }
    }

    /// What a press read returns, and the state it leaves.
    pub open spec fn take_press(self) -> (bool, RotaryEncoder) {
        (self.pressed, RotaryEncoder { pressed: false, ..self })
    }

    /// A decoder at position 0, with no press latched.
    pub fn new() -> (r: Self)
        ensures
            !r.pressed,
            !r.was_down,
            r.buffer == 0,
            r.position == 0,
    {
        RotaryEncoder { pressed: false, was_down: false, buffer: 0, position: 0 }
    }

    /// Takes one sample of the lines. A release of the button after it was
    /// seen down latches a press. A phase that differs from the last one is
    /// shifted into the buffer; a buffer that then matches a detent pattern
    /// moves the position by one in its direction, saturating at the bounds of
    /// `i32`.
    pub fn poll(&mut self, button: bool, a: bool, b: bool)
        ensures
            *final(self) == old(self).step((button, a, b)),
    {
        if button {
            self.was_down = true;
        } else if self.was_down {
            self.was_down = false;
            self.pressed = true;
        }
        let val: u8 = (if a { 2u8 } else { 0u8 }) + (if b { 1u8 } else { 0u8 });
        if self.buffer & 3 != val {
            self.buffer = (self.buffer << 2u8) | val;
            if self.buffer == INCREMENT_PATTERN {
                if self.position < i32::MAX {
                    self.position = self.position + 1;
                }
            } else if self.buffer == DECREMENT_PATTERN {
                if self.position > i32::MIN {
                    self.position = self.position - 1;
                }
            }
        }
    }

    /// Returns the latched press and clears it.
    pub fn was_pressed(&mut self) -> (r: bool)
        ensures
            (r, *final(self)) == old(self).take_press(),
    {
        if self.pressed {
            self.pressed = false;
            true
        } else {
            false
        }
    }

    /// The position clamped into `[min_in, max_in]`, as an offset from
    /// `min_in`; below `min_in` it is `min_in`, above `max_in` it is `max_in`.
    pub fn map_offset(&self, min_in: i32, max_in: i32) -> (r: i64)
        ensures
            r == (if self.position < min_in {
                min_in as int
            } else if self.position > max_in {
                max_in as int
            } else {
                self.position as int
            }) - min_in,
    {
        let clamped: i32 = if self.position < min_in {
            min_in
        } else if self.position > max_in {
            max_in
        } else {
            self.position
        };
        clamped as i64 - min_in as i64
    }
}

/// A poll whose sample completes no detent pattern leaves the position as it
/// was.
pub proof fn lemma_other_pattern_keeps_position(e: RotaryEncoder, s: Sample)
    requires
        !e.completes(s, INCREMENT_PATTERN),
        !e.completes(s, DECREMENT_PATTERN),
    ensures
        e.step(s).position == e.position,
{
}

/// Over polls none of which completes the decreasing pattern, the position
/// never goes down.
pub proof fn lemma_increments_never_lower(e: RotaryEncoder, samples: Seq<Sample>)
    requires
        e.never_completes(samples, DECREMENT_PATTERN),
    ensures
        e.run(samples).position >= e.position,
    decreases samples.len(),
{
    if samples.len() > 0 {
        lemma_increments_never_lower(e.step(samples[0]), samples.drop_first());
    }
}

/// Over polls none of which completes the increasing pattern, the position
/// never goes up.
pub proof fn lemma_decrements_never_raise(e: RotaryEncoder, samples: Seq<Sample>)
    requires
        e.never_completes(samples, INCREMENT_PATTERN),
    ensures
        e.run(samples).position <= e.position,
    decreases samples.len(),
{
    if samples.len() > 0 {
        lemma_decrements_never_raise(e.step(samples[0]), samples.drop_first());
    }
}

/// A press is read at most once: of two reads with no poll between them the
/// second returns false.
pub proof fn lemma_press_read_once(e: RotaryEncoder)
    ensures
        !e.take_press().1.take_press().0,
{
}

} // verus!
