//! The WS2812B RGB LED: its colour and the pulse train that sets it. Each
//! of the 24 colour bits (green, red, blue; most significant bit first) is
//! one high pulse and one low pulse whose lengths tell a one from a zero,
//! followed by a low reset pulse.
use vstd::prelude::*;

verus! {

/// High time of a zero bit, in transmitter ticks.
pub const WS2812_BIT_0_HIGH_TICKS: u16 = 8;
/// Low time of a zero bit.
pub const WS2812_BIT_0_LOW_TICKS: u16 = 17;
/// High time of a one bit.
pub const WS2812_BIT_1_HIGH_TICKS: u16 = 16;
/// Low time of a one bit.
pub const WS2812_BIT_1_LOW_TICKS: u16 = 9;
/// Low time that latches the colour.
pub const WS2812_RESET_TICKS: u16 = 1200;
/// Pulses in a frame: 24 bits and the reset.
pub const WS2812_FRAME_PULSES: usize = 25;

/// One transmitter code: a level held for a number of ticks, then a second
/// level held for a number of ticks.
#[derive(Clone, Copy, Debug, PartialEq, Eq, Structural)]
pub struct Pulse {
    pub level1: bool,
    pub length1: u16,
    pub level2: bool,
    pub length2: u16,
}

/// The pulse encoding one bit.
pub open spec fn bit_pulse(one: bool) -> Pulse {
    if one {
        Pulse { level1: true, length1: WS2812_BIT_1_HIGH_TICKS, level2: false, length2: WS2812_BIT_1_LOW_TICKS }
    } else {
        Pulse { level1: true, length1: WS2812_BIT_0_HIGH_TICKS, level2: false, length2: WS2812_BIT_0_LOW_TICKS }
    }
}

/// The pulse that ends a frame.
pub open spec fn reset_pulse() -> Pulse {
    Pulse { level1: false, length1: WS2812_RESET_TICKS, level2: false, length2: 0 }
}

/// Bit `k` (0 = most significant) of `byte`.
pub open spec fn msb_bit(byte: u8, k: int) -> bool {
    (byte as int / pow2_u8(7 - k)) % 2 == 1
}

/// `2^e` for `0 <= e <= 7`.
pub open spec fn pow2_u8(e: int) -> int
    decreases e,
{
    if e <= 0 { 1 } else { 2 * pow2_u8(e - 1) }
}

/// The `i`-th bit sent for colour `(r, g, b)`: green, red, then blue, each
/// most significant bit first.
pub open spec fn frame_bit(r: u8, g: u8, b: u8, i: int) -> bool {
    let byte = if i < 8 { g } else if i < 16 { r } else { b };
    msb_bit(byte, i % 8)
}

/// Whether bit `bit` (0 = least significant) of `byte` is set.
fn bit_set(byte: u8, bit: u8) -> (one: bool)
    requires
        bit < 8,
    ensures
        one == ((byte as int / pow2_u8(bit as int)) % 2 == 1),
{
    let one = ((byte >> bit) & 1) != 0;
    proof {
        reveal_with_fuel(pow2_u8, 8);
        assert(((byte >> bit) & 1) == (byte / (1u8 << bit)) % 2) by (bit_vector)
            requires
                bit < 8,
        ;
        assert((1u8 << bit) as int == pow2_u8(bit as int)) by {
            assert(bit == 0 || bit == 1 || bit == 2 || bit == 3 || bit == 4 || bit == 5 || bit == 6 || bit == 7);
            assert(1u8 << 0u8 == 1) by (bit_vector);
            assert(1u8 << 1u8 == 2) by (bit_vector);
            assert(1u8 << 2u8 == 4) by (bit_vector);
            assert(1u8 << 3u8 == 8) by (bit_vector);
            assert(1u8 << 4u8 == 16) by (bit_vector);
            assert(1u8 << 5u8 == 32) by (bit_vector);
            assert(1u8 << 6u8 == 64) by (bit_vector);
            assert(1u8 << 7u8 == 128) by (bit_vector);
        }
    }
    one
}

/// The pulse train that sets the LED to `(r, g, b)`.
pub fn ws2812_frame(r: u8, g: u8, b: u8) -> (f: Vec<Pulse>)
    ensures
        f@.len() == WS2812_FRAME_PULSES,
        forall|i: int| 0 <= i < 24 ==> #[trigger] f@[i] == bit_pulse(frame_bit(r, g, b, i)),
        f@[24] == reset_pulse(),
{
    let mut f: Vec<Pulse> = Vec::new();
    let grb: [u8; 3] = [g, r, b];
    let mut k: usize = 0;
    while k < 3
        invariant
            0 <= k <= 3,
            grb@ == seq![g, r, b],
            f@.len() == 8 * k,
            forall|i: int| 0 <= i < 8 * k ==> #[trigger] f@[i] == bit_pulse(frame_bit(r, g, b, i)),
        decreases 3 - k,
    {
        let byte = grb[k];
        let mut j: u8 = 0;
        while j < 8
            invariant
                0 <= k < 3,
                0 <= j <= 8,
                byte == grb@[k as int],
                grb@ == seq![g, r, b],
                f@.len() == 8 * k + j,
                forall|i: int| 0 <= i < 8 * k + j ==> #[trigger] f@[i] == bit_pulse(frame_bit(r, g, b, i)),
            decreases 8 - j,
        {
            let one = bit_set(byte, 7 - j);
            let p = if one {
                Pulse { level1: true, length1: WS2812_BIT_1_HIGH_TICKS, level2: false, length2: WS2812_BIT_1_LOW_TICKS }
            } else {
                Pulse { level1: true, length1: WS2812_BIT_0_HIGH_TICKS, level2: false, length2: WS2812_BIT_0_LOW_TICKS }
            };
            f.push(p);
            proof {
                let i = 8 * k + j;
                assert(i % 8 == j as int);
                assert(i < 8 <==> k == 0);
                assert(i < 16 <==> k <= 1);
            }
            j = j + 1;
        }
        k = k + 1;
    }
    f.push(Pulse { level1: false, length1: WS2812_RESET_TICKS, level2: false, length2: 0 });
    f
}

/// The LED's colour.
pub struct RgbLedDriver {
    pub r: u8,
    pub g: u8,
    pub b: u8,
}

impl RgbLedDriver {
    /// Off.
    pub fn new() -> (d: Self)
        ensures
            d.r == 0 && d.g == 0 && d.b == 0,
    {
        RgbLedDriver { r: 0, g: 0, b: 0 }
    }

    /// Set the colour.
    pub fn set_color(&mut self, red: u8, green: u8, blue: u8)
        ensures
            final(self).r == red && final(self).g == green && final(self).b == blue,
    {
        self.r = red;
        self.g = green;
        self.b = blue;
    }

    /// The pulse train that shows the current colour.
    pub fn pulse_frame(&self) -> (f: Vec<Pulse>)
        ensures
            f@.len() == WS2812_FRAME_PULSES,
            forall|i: int| 0 <= i < 24 ==> #[trigger] f@[i] == bit_pulse(frame_bit(self.r, self.g, self.b, i)),
            f@[24] == reset_pulse(),
    {
        ws2812_frame(self.r, self.g, self.b)
    }

    /// The current colour as `(r, g, b)`.
    pub fn get_color(&self) -> (c: (u8, u8, u8))
        ensures
            c == (self.r, self.g, self.b),
    {
        (self.r, self.g, self.b)
    }

    /// Turn the LED off (black).
    pub fn off(&mut self)
        ensures
            final(self).r == 0 && final(self).g == 0 && final(self).b == 0,
    {
        self.set_color(0, 0, 0);
    }
}

/// Black is sent as 24 zero bits.
pub proof fn lemma_black_is_all_zero_bits(i: int)
    requires
        0 <= i < 24,
    ensures
        !frame_bit(0, 0, 0, i),
{
    reveal_with_fuel(pow2_u8, 8);
    lemma_pow2_pos(7 - i % 8);
}

impl Default for RgbLedDriver {
    fn default() -> (d: Self)
        ensures
            d.r == 0 && d.g == 0 && d.b == 0,
    {
        RgbLedDriver::new()
    }
}

proof fn lemma_pow2_pos(e: int)
    ensures
        pow2_u8(e) >= 1,
    decreases e,
{
    if e > 0 {
        lemma_pow2_pos(e - 1);
    }
}

} // verus!
