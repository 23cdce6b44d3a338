//! Marsaglia's Xorwow generator: five 32-bit words of xorshift state and a
//! Weyl counter that is added to each output.
use vstd::prelude::*;

verus! {

/// Added to the Weyl counter on every step.
pub const WEYL_INCREMENT: u32 = 362437;

/// Number of outputs thrown away after seeding.
pub const WARM_UP: u32 = 10;

/// The generator's state.
pub struct Xorwow {
    x: u32,
    y: u32,
    z: u32,
    w: u32,
    v: u32,
    d: u32,
}

/// The six state words, in the order x, y, z, w, v, d.
pub type XorwowState = (u32, u32, u32, u32, u32, u32);

/// `w + rhs` modulo 2^32, plus one more when the sum wrapped.
pub open spec fn carry_add(w: u32, rhs: u32) -> u32 {
    if w as int + rhs as int >= 0x1_0000_0000 {
        ((w as int + rhs as int - 0x1_0000_0000 + 1) % 0x1_0000_0000) as u32
    } else {
        (w as int + rhs as int) as u32
    }
}

/// The state after one step.
pub open spec fn step(s: XorwowState) -> XorwowState {
    let t = s.0 ^ (s.0 >> 2u32);
    let v = (s.4 ^ (s.4 << 4u32)) ^ (t ^ (t << 1u32));
    (s.1, s.2, s.3, s.4, v, ((s.5 as int + WEYL_INCREMENT as int) % 0x1_0000_0000) as u32)
}

/// The output of the step that led to `next`: its `v` xor its counter, added
/// with carry to its `w`.
pub open spec fn output_of(next: XorwowState) -> u32 {
    carry_add(next.3, next.4 ^ next.5)
}

/// The state after `n` steps.
pub open spec fn steps(s: XorwowState, n: nat) -> XorwowState
    decreases n,
{
    if n == 0 {
        s
    } else {
        step(steps(s, (n - 1) as nat))
    }
}

/// The state right after seeding, before the warm-up.
pub open spec fn seeded(seed: u32) -> XorwowState {
    (123456789, 362436069, 521288629, seed, 88675123, 6615241)
}

impl View for Xorwow {
    type V = XorwowState;

    closed spec fn view(&self) -> XorwowState {
        (self.x, self.y, self.z, self.w, self.v, self.d)
    }
}

impl Xorwow {
    /// A generator seeded with `seed`, with the first outputs discarded.
    pub fn new(seed: u32) -> (r: Xorwow)
        ensures
            r@ == steps(seeded(seed), WARM_UP as nat),
    {
        let mut rng = Xorwow {
            x: 123456789,
            y: 362436069,
            z: 521288629,
            w: seed,
            v: 88675123,
            d: 6615241,
        };
        let mut i: u32 = 0;
        while i < WARM_UP
            invariant
                i <= WARM_UP,
                rng@ == steps(seeded(seed), i as nat),
            decreases WARM_UP - i,
        {
            rng.next_u32();
            i = i + 1;
        }
        rng
    }

    /// `self.w + rhs` with the carry folded back in.
    fn wrapping_add(&self, rhs: u32) -> (r: u32)
        ensures
            r == carry_add(self.w, rhs),
    {
        let sum: u32 = self.w.wrapping_add(rhs);
        if sum < self.w {
            sum.wrapping_add(1)
        } else {
            sum
        }
    }

    /// Advances the state by one step and returns the step's output.
    pub fn next_u32(&mut self) -> (r: u32)
        ensures
            final(self)@ == step(old(self)@),
            r == output_of(final(self)@),
    {
        let t: u32 = self.x ^ (self.x >> 2);
        self.x = self.y;
        self.y = self.z;
        self.z = self.w;
        self.w = self.v;
        self.v = (self.v ^ (self.v << 4)) ^ (t ^ (t << 1));
        self.d = self.d.wrapping_add(WEYL_INCREMENT);
        self.wrapping_add(self.v ^ self.d)
    }
}

} // verus!
