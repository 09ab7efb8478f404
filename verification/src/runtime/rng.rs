//! A generator of reproducible test data.
use vstd::prelude::*;

verus! {

/// The state that follows `x`.
pub open spec fn xorshift(x: u32) -> u32 {
    let a = x ^ (x << 13);
    let b = a ^ (a >> 17);
    b ^ (b << 5)
}

/// The number that is drawn in `n`-th place from a seed, the seed itself in place zero.
pub open spec fn drawn(seed: u32, n: nat) -> u32
    decreases n,
{
    if n == 0 {
        seed
    } else {
        xorshift(drawn(seed, (n - 1) as nat))
    }
}

/// No state but zero is followed by zero.
pub proof fn xorshift_keeps_nonzero(x: u32)
    requires
        x != 0,
    ensures
        xorshift(x) != 0,
{
    assert(({
        let a = x ^ (x << 13);
        let b = a ^ (a >> 17);
        b ^ (b << 5)
    }) != 0) by (bit_vector)
        requires
            x != 0,
    ;
}

/// A seed that is not zero never leads to zero.
pub proof fn drawn_is_nonzero(seed: u32, n: nat)
    requires
        seed != 0,
    ensures
        drawn(seed, n) != 0,
    decreases n,
{
    if n > 0 {
        drawn_is_nonzero(seed, (n - 1) as nat);
        xorshift_keeps_nonzero(drawn(seed, (n - 1) as nat));
    }
}

/// The generator: its state.
#[derive(Clone, Copy, Debug, PartialEq, Eq, Structural)]
pub struct Rng(pub u32);

impl Rng {
    /// Draws 32 bits.
    pub fn next_u32(&mut self) -> (x: u32)
        ensures
            x == xorshift(old(self).0),
            final(self).0 == x,
    {
        let x: u32 = self.0;
        let a: u32 = x ^ (x << 13);
        let b: u32 = a ^ (a >> 17);
        let c: u32 = b ^ (b << 5);
        self.0 = c;
        c
    }

    /// Draws a number below one, as a numerator over 2^24.
    pub fn next_unit(&mut self) -> (numerator: u32)
        ensures
            numerator == xorshift(old(self).0) >> 8,
            final(self).0 == xorshift(old(self).0),
    {
        self.next_u32() >> 8
    }

    /// Draws four bits.
    pub fn next_nibble(&mut self) -> (nibble: u8)
        ensures
            nibble == nibble_of(xorshift(old(self).0)),
            final(self).0 == xorshift(old(self).0),
    {
        (self.next_u32() & 0xf) as u8
    }

    /// Draws a scale around one: an E4M3 number without sign, from 0x38 to 0x42.
    pub fn next_ue4m3_scale(&mut self) -> (byte: u8)
        ensures
            byte == scale_of(xorshift(old(self).0)),
            0x38 <= byte <= 0x42,
            final(self).0 == xorshift(old(self).0),
    {
        let nibble: u8 = self.next_nibble();
        0x38 + nibble % 11
    }

    /// Draws an integer between -7 and 7.
    pub fn small_int(&mut self) -> (value: i32)
        ensures
            value == small_of(xorshift(old(self).0)),
            -7 <= value <= 7,
            final(self).0 == xorshift(old(self).0),
    {
        (self.next_u32() % 15) as i32 - 7
    }
}

/// The low four bits.
pub open spec fn nibble_of(x: u32) -> u8 {
    (x & 0xf) as u8
}

/// A scale byte from 0x38 to 0x42.
pub open spec fn scale_of(x: u32) -> u8 {
    (0x38 + nibble_of(x) % 11) as u8
}

/// An integer between -7 and 7.
pub open spec fn small_of(x: u32) -> int {
    x as int % 15 - 7
}

} // verus!
