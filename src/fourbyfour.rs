//! A 4x4 button matrix: the scan that assembles a pressed-button mask from
//! four strobed rows, the mapped snapshot, and release detection between two
//! snapshots.
use vstd::prelude::*;

verus! {

/// Number of lines driven (and sampled) by one matrix scan.
pub const LINES: usize = 4;

/// Whether bit `i` of `mask` is set.
pub open spec fn bit_of(mask: u16, i: int) -> bool {
    mask & (1u16 << (i as u16)) != 0
}

proof fn lemma_bit_or(a: u16, i: u16, j: u16)
    requires
        i < 16,
        j < 16,
    ensures
        (a | (1u16 << j)) & (1u16 << i) != 0 <==> (a & (1u16 << i) != 0 || i == j),
{
    assert((a | (1u16 << j)) & (1u16 << i) != 0 <==> (a & (1u16 << i) != 0 || i == j))
        by (bit_vector)
        requires
            i < 16,
            j < 16,
    ;
}

/// The output pattern of strobe `out`: exactly line `out` driven high.
pub fn strobe_pattern(out: usize) -> (r: [bool; 4])
    requires
        out < LINES,
    ensures
        forall|k: int| 0 <= k < 4 ==> r@[k] == (k == out),
{
    [out == 0, out == 1, out == 2, out == 3]
}

/// Folds the four inputs sampled while line `out` was strobed into `acc`:
/// input `k` sets bit `out * 4 + k`, every other bit is kept.
pub fn accumulate_row(acc: u16, out: usize, values: [bool; 4]) -> (r: u16)
    requires
        out < LINES,
    ensures
        forall|i: int|
            0 <= i < 16 ==> #[trigger] bit_of(r, i) == (bit_of(acc, i) || (i / 4 == out
                && values@[i % 4])),
{
    let mut r: u16 = acc;
    let base: u16 = (out * 4) as u16;
    let mut k: usize = 0;
    while k < 4
        invariant
            out < LINES,
            base == out * 4,
            k <= 4,
            forall|i: int|
                0 <= i < 16 ==> #[trigger] bit_of(r, i) == (bit_of(acc, i) || (i / 4 == out
                    && i % 4 < k && values@[i % 4])),
        decreases 4 - k,
    {
        if values[k] {
            let j: u16 = base + k as u16;
            let old_r = r;
            r = r | (1u16 << j);
            assert forall|i: int| 0 <= i < 16 implies #[trigger] bit_of(r, i) == (bit_of(
                old_r,
                i,
            ) || i == j) by {
                lemma_bit_or(old_r, i as u16, j);
            }
        }
        k = k + 1;
    }
    r
}

/// The symbol map of the conventional telephone-keypad layout, as ASCII:
/// `1 2 3 A / 4 5 6 B / 7 8 9 C / * 0 # D`.
pub fn default_map() -> (r: [u8; 16])
    ensures
        r@ == seq![
            49u8, 50, 51, 65,
            52, 53, 54, 66,
            55, 56, 57, 67,
            42, 48, 35, 68,
        ],
{
    let r: [u8; 16] = [
        49u8, 50, 51, 65,
        52, 53, 54, 66,
        55, 56, 57, 67,
        42, 48, 35, 68,
    ];
    assert(r@ =~= seq![
        49u8, 50, 51, 65,
        52, 53, 54, 66,
        55, 56, 57, 67,
        42, 48, 35, 68,
    ]);
    r
}

/// One snapshot of the matrix: the pressed-button mask (bit `row * 4 + col`)
/// and the symbol each bit stands for.
#[derive(Copy, Clone)]
pub struct FourByFourState {
    pub state: u16,
    pub map: [u8; 16],
}

impl FourByFourState {
    /// Whether bit `i` is set in this snapshot.
    pub open spec fn pressed_at(&self, i: int) -> bool {
        bit_of(self.state, i)
    }

    /// Whether some set bit maps to `thing`.
    pub open spec fn pressed_spec(&self, thing: u8) -> bool {
        exists|i: int| 0 <= i < 16 && self.map@[i] == thing && #[trigger] self.pressed_at(i)
    }

    /// The symbols of the set bits among the first `n`, in ascending bit order.
    pub open spec fn symbols_below(&self, n: int) -> Seq<u8>
        decreases n,
    {
        if n <= 0 {
            Seq::empty()
        } else if self.pressed_at(n - 1) {
            self.symbols_below(n - 1).push(self.map@[n - 1])
        } else {
            self.symbols_below(n - 1)
        }
    }

    /// A snapshot with nothing pressed.
    pub fn empty() -> (r: Self)
        ensures
            r.state == 0,
            r.map@ == Seq::new(16, |i: int| 0u8),
            forall|t: u8| !r.pressed_spec(t),
    {
        let r = FourByFourState { state: 0, map: [0u8; 16] };
        assert(r.map@ =~= Seq::new(16, |i: int| 0u8));
        assert forall|i: int| 0 <= i < 16 implies !#[trigger] r.pressed_at(i) by {
            let ii = i as u16;
            assert(0u16 & (1u16 << ii) == 0) by (bit_vector);
        }
        r
    }

    /// A snapshot of a scanned mask under the given symbol map.
    pub fn from_raw(state: u16, map: [u8; 16]) -> (r: Self)
        ensures
            r.state == state,
            r.map == map,
    {
        FourByFourState { state, map }
    }

    /// Whether bit `thing` is set.
    pub fn is_pressed_raw(&self, thing: u16) -> (r: bool)
        requires
            thing < 16,
        ensures
            r == self.pressed_at(thing as int),
    {
        self.state & (1u16 << thing) > 0
    }

    /// Whether any set bit maps to `thing`.
    pub fn is_pressed(&self, thing: u8) -> (r: bool)
        ensures
            r == self.pressed_spec(thing),
    {
        let mut button: u16 = 0;
        while button < 16
            invariant
                button <= 16,
                forall|i: int|
                    0 <= i < button ==> !(self.map@[i] == thing && #[trigger] self.pressed_at(i)),
            decreases 16 - button,
        {
            if self.map[button as usize] == thing && self.is_pressed_raw(button) {
                return true;
            }
            button = button + 1;
        }
        false
    }

    /// The symbols currently pressed, in ascending bit order.
    pub fn into_vec(&self) -> (r: Vec<u8>)
        ensures
            r@ == self.symbols_below(16),
    {
        let mut r: Vec<u8> = Vec::new();
        let mut button: u16 = 0;
        while button < 16
            invariant
                button <= 16,
                r@ == self.symbols_below(button as int),
            decreases 16 - button,
        {
            if self.is_pressed_raw(button) {
                r.push(self.map[button as usize]);
            }
            button = button + 1;
        }
        r
    }

    /// The change from this snapshot to `other`.
    pub fn aint(&self, other: FourByFourState) -> (r: FourByFourD)
        ensures
            r.before == *self,
            r.after == other,
    {
        FourByFourD { before: *self, after: other }
    }
}

/// Two consecutive snapshots of the matrix.
#[derive(Copy, Clone)]
pub struct FourByFourD {
    pub before: FourByFourState,
    pub after: FourByFourState,
}

impl FourByFourD {
    /// Whether `button` was pressed in the earlier snapshot and is not in the
    /// later one.
    pub open spec fn released_spec(&self, button: u8) -> bool {
        self.before.pressed_spec(button) && !self.after.pressed_spec(button)
    }

    /// Whether `button` was released between the two snapshots.
    pub fn released(&self, button: u8) -> (r: bool)
        ensures
            r == (self.before.pressed_spec(button) && !self.after.pressed_spec(button)),
            r == self.released_spec(button),
    {
        if !self.before.is_pressed(button) {
            return false;
        }
        if self.after.is_pressed(button) {
            return false;
        }
        true
    }
}

/// Bits that share a symbol are or-ed: the symbol counts as pressed as soon as
/// either of them is set.
pub proof fn lemma_shared_symbol_or(s: FourByFourState, i: int, j: int)
    requires
        0 <= i < 16,
        0 <= j < 16,
        s.map@[i] == s.map@[j],
    ensures
        (s.pressed_at(i) || s.pressed_at(j)) ==> s.pressed_spec(s.map@[i]),
        (s.pressed_at(i) || s.pressed_at(j)) ==> s.pressed_spec(s.map@[j]),
{
}

} // verus!
