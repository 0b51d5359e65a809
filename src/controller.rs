//! The polling controller: it turns released keys and rotary samples into
//! numeric track selection, pause toggling and skip requests, and picks the
//! next track to play.
use vstd::prelude::*;
use vstd::wrapping::usize_specs;
use std::collections::VecDeque;
use crate::fourbyfour::{FourByFourD, FourByFourState};
use crate::rotary::RotaryEncoder;

verus! {

/// ASCII `0`, the first digit symbol.
pub const SYMBOL_ZERO: u8 = 48;

/// ASCII `*`: queue the entered number, or toggle pause.
pub const SYMBOL_STAR: u8 = 42;

/// ASCII `#`: cancel the entered number, or skip the current track.
pub const SYMBOL_HASH: u8 = 35;

/// Digit `digit` appended to the decimal entry `n`, wrapping at the width of
/// `usize`.
pub open spec fn append_digit(n: usize, digit: usize) -> usize {
    usize_specs::wrapping_add(usize_specs::wrapping_mul(n, 10), digit)
}

/// The entry `n` after the released digits among the first `k`, taken in
/// ascending order, were appended.
pub open spec fn entered_below(n: usize, d: FourByFourD, k: int) -> usize
    decreases k,
{
    if k <= 0 {
        n
    } else {
        let m = entered_below(n, d, k - 1);
        if d.released_spec((SYMBOL_ZERO + k - 1) as u8) {
            append_digit(m, (k - 1) as usize)
        } else {
            m
        }
    }
}

/// The entry after all released digits of `d` were appended to `n`.
pub open spec fn entered(n: usize, d: FourByFourD) -> usize {
    entered_below(n, d, 10)
}

/// What a poll cycle reports: whether the current track goes on playing, and
/// the entered number where a selection beyond the library was rejected.
pub struct UpdateOutcome {
    pub go_on: bool,
    pub rejected: Option<usize>,
}

/// Whether a random draw `roll` is taken among `total` tracks while track
/// `ptr` is current: a library of one track always gives 0; else `roll %
/// total` is taken unless it is the current track, in which case nothing is,
/// and the caller draws again.
pub fn accept_roll(roll: usize, ptr: usize, total: usize) -> (r: Option<usize>)
    requires
        total > 0,
    ensures
        total == 1 ==> r == Some(0usize),
        total > 1 ==> r == if roll % total != ptr {
            Some((roll % total) as usize)
        } else {
            None
        },
{
    if total == 1 {
        return Some(0);
    }
    let c = roll % total;
    if c != ptr {
        Some(c)
    } else {
        None
    }
}

/// Relies on `rand::random`: a value from the thread's generator. Nothing is
/// known of it.
#[verifier::external_body]
fn random_roll() -> (r: usize) {
    rand::random::<usize>()
}

/// The controller: current track, queue of requested tracks, last matrix
/// snapshot, rotary decoder, the number being entered (0 when none) and
/// whether playback is paused.
pub struct SystemState {
    pub ptr: usize,
    pub queue: VecDeque<usize>,
    pub old_keypad_state: FourByFourState,
    pub volume: RotaryEncoder,
    pub numstate: usize,
    pub paused: bool,
}

impl SystemState {
    /// A controller with an empty queue, no entry, paused, over a decoder at
    /// position 0.
    pub fn new() -> (r: Self)
        ensures
            r.ptr == 0,
            r.queue@ == Seq::<usize>::empty(),
            r.old_keypad_state.state == 0,
            r.volume.position == 0,
            !r.volume.pressed,
            r.numstate == 0,
            r.paused,
    {
        SystemState {
            ptr: 0,
            queue: VecDeque::new(),
            old_keypad_state: FourByFourState::empty(),
            volume: RotaryEncoder::new(),
            numstate: 0,
            paused: true,
        }
    }

    /// One poll cycle over the new matrix snapshot `buttons` and the rotary
    /// sample (`button`, `a`, `b`), for a library of `total_songs` tracks.
    /// Released digits are appended to the entry. A released `*` queues
    /// entry - 1 at the front where 0 < entry <= `total_songs`, and resets the
    /// entry; with no entry it toggles pause. A released `#` cancels the entry,
    /// or with no entry asks for a skip: the result is false exactly then. The
    /// rotary decoder is polled and its press read every cycle.
    pub fn update(
        &mut self,
        buttons: FourByFourState,
        button: bool,
        a: bool,
        b: bool,
        total_songs: usize,
    ) -> (r: UpdateOutcome)
        ensures
            ({
                let d = FourByFourD { before: old(self).old_keypad_state, after: buttons };
                let n1 = entered(old(self).numstate, d);
                let star = d.released_spec(SYMBOL_STAR);
                let hash = d.released_spec(SYMBOL_HASH);
                let n2: usize = if star {
                    0
                } else {
                    n1
                };
                &&& final(self).old_keypad_state == buttons
                &&& final(self).ptr == old(self).ptr
                &&& final(self).volume == old(self).volume.step((button, a, b)).take_press().1
                &&& final(self).paused == if star && n1 == 0 {
                    !old(self).paused
                } else {
                    old(self).paused
                }
                &&& final(self).queue@ == if star && 0 < n1 <= total_songs {
                    seq![(n1 - 1) as usize] + old(self).queue@
                } else {
                    old(self).queue@
                }
                &&& final(self).numstate == if hash {
                    0
                } else {
                    n2
                }
                &&& r.go_on == !(hash && n2 == 0)
                &&& r.rejected == if star && n1 > total_songs {
                    Some(n1)
                } else {
                    None
                }
            }),
    {
        let dif = self.old_keypad_state.aint(buttons);
        self.old_keypad_state = buttons;
        let ghost n0 = self.numstate;
        let mut k: u8 = 0;
        while k < 10
            invariant
                k <= 10,
                dif == (FourByFourD { before: old(self).old_keypad_state, after: buttons }),
                n0 == old(self).numstate,
                self.numstate == entered_below(n0, dif, k as int),
                self.old_keypad_state == buttons,
                self.ptr == old(self).ptr,
                self.volume == old(self).volume,
                self.paused == old(self).paused,
                self.queue@ == old(self).queue@,
            decreases 10 - k,
        {
            if dif.released(SYMBOL_ZERO + k) {
                self.numstate = self.numstate.wrapping_mul(10).wrapping_add(k as usize);
            }
            k = k + 1;
        }
        let mut go_on = true;
        let mut rejected: Option<usize> = None;
        if dif.released(SYMBOL_STAR) {
            if self.numstate > 0 {
                if self.numstate <= total_songs {
                    self.queue.push_front(self.numstate - 1);
                } else {
                    rejected = Some(self.numstate);
                }
                self.numstate = 0;
            } else {
                self.paused = !self.paused;
            }
        }
        if dif.released(SYMBOL_HASH) {
            if self.numstate > 0 {
                self.numstate = 0;
            } else {
                go_on = false;
            }
        }
        self.volume.poll(button, a, b);
        let _press = self.volume.was_pressed();
        UpdateOutcome { go_on, rejected }
    }

    /// Picks the next track with the draw `roll`: the front of the queue,
    /// popped, where the queue is not empty; else nothing where the library is
    /// empty; else `accept_roll(roll, ptr, total_songs)`, where nothing means
    /// that the draw hit the current track and another is needed. A pick
    /// becomes the current track; with none the state is unchanged.
    pub fn pick_with(&mut self, roll: usize, total_songs: usize) -> (r: Option<usize>)
        ensures
            old(self).queue@.len() > 0 ==> r == Some(old(self).queue@[0]) && final(self).queue@
                == old(self).queue@.drop_first(),
            old(self).queue@.len() == 0 ==> final(self).queue@ == old(self).queue@,
            old(self).queue@.len() == 0 && total_songs == 0 ==> r is None,
            old(self).queue@.len() == 0 && total_songs == 1 ==> r == Some(0usize),
            old(self).queue@.len() == 0 && total_songs > 1 ==> r == if roll % total_songs
                != old(self).ptr {
                Some((roll % total_songs) as usize)
            } else {
                None
            },
            r matches Some(p) ==> final(self).ptr == p,
            r is None ==> final(self).ptr == old(self).ptr,
            final(self).old_keypad_state == old(self).old_keypad_state,
            final(self).volume == old(self).volume,
            final(self).numstate == old(self).numstate,
            final(self).paused == old(self).paused,
    {
        if let Some(pointer) = self.queue.pop_front() {
            self.ptr = pointer;
            return Some(pointer);
        }
        if total_songs == 0 {
            return None;
        }
        let r = accept_roll(roll, self.ptr, total_songs);
        if let Some(p) = r {
            self.ptr = p;
        }
        r
    }

    /// Picks the next track with one random draw: the front of the queue,
    /// popped, where the queue is not empty; else nothing where the library is
    /// empty; else a random track other than the current one, or nothing
    /// where the draw hit the current track, so that the caller draws again.
    /// A library of one track always gives 0.
    pub fn pick(&mut self, total_songs: usize) -> (r: Option<usize>)
        ensures
            old(self).queue@.len() > 0 ==> r == Some(old(self).queue@[0]) && final(self).queue@
                == old(self).queue@.drop_first(),
            old(self).queue@.len() == 0 ==> final(self).queue@ == old(self).queue@,
            old(self).queue@.len() == 0 && total_songs == 0 ==> r is None,
            old(self).queue@.len() == 0 && total_songs == 1 ==> r == Some(0usize),
            old(self).queue@.len() == 0 && total_songs > 1 ==> (r matches Some(p) ==> p
                < total_songs && p != old(self).ptr),
            r matches Some(p) ==> final(self).ptr == p,
            r is None ==> final(self).ptr == old(self).ptr,
            final(self).old_keypad_state == old(self).old_keypad_state,
            final(self).volume == old(self).volume,
            final(self).numstate == old(self).numstate,
            final(self).paused == old(self).paused,
    {
        let roll: usize = if self.queue.len() == 0 && total_songs > 1 {
            random_roll()
        } else {
            0
        };
        self.pick_with(roll, total_songs)
    }
}

} // verus!
