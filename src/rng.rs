//! Random number generator using the Mersenne Twister algorithm (MT19937).
use vstd::prelude::*;
use crate::fixed_point::Q64;

verus! {

/// Number of words of state.
pub const N: usize = 624;
/// Offset of the word mixed into each twisted word.
pub const M: usize = 397;

/// Word `i` of the state seeded from `seed`, from word `i - 1`.
pub open spec fn seed_next(prev: u32, i: int) -> u32 {
    (1812433253u32.wrapping_mul(prev ^ (prev >> 30u32))).wrapping_add(i as u32)
}

/// Word `i` of the state seeded from `seed`.
pub open spec fn seeded_word(seed: u32, i: nat) -> u32
    decreases i,
{
    if i == 0 {
        seed
    } else {
        seed_next(seeded_word(seed, (i - 1) as nat), i as int)
    }
}

/// The whole state seeded from `seed`.
pub open spec fn seeded_state(seed: u32) -> Seq<u32> {
    Seq::new(N as nat, |i: int| seeded_word(seed, i as nat))
}

/// The twisted word built from the top bit of `a` and the low bits of `b`.
pub open spec fn twist_mix(a: u32, b: u32) -> u32 {
    let x = ((a & 0x80000000u32) + (b & 0x7fffffffu32)) as u32;
    if x % 2 != 0 {
        (x >> 1u32) ^ 0x9908b0dfu32
    } else {
        x >> 1u32
    }
}

/// The state after word `i` is twisted in place.
pub open spec fn twist_step(s: Seq<u32>, i: int) -> Seq<u32> {
    s.update(i, s[(i + M) % (N as int)] ^ twist_mix(s[i], s[(i + 1) % (N as int)]))
}

/// The state after words `0 .. i` are twisted in place, in order.
pub open spec fn twisted_upto(s: Seq<u32>, i: nat) -> Seq<u32>
    decreases i,
{
    if i == 0 {
        s
    } else {
        twist_step(twisted_upto(s, (i - 1) as nat), i - 1)
    }
}

/// The tempering transform applied to a state word on output.
pub open spec fn temper(y0: u32) -> u32 {
    let y1 = y0 ^ (y0 >> 11u32);
    let y2 = y1 ^ ((y1 << 7u32) & 0x9d2c5680u32);
    let y3 = y2 ^ ((y2 << 15u32) & 0xefc60000u32);
    y3 ^ (y3 >> 18u32)
}

/// Twisting keeps the length of the state.
pub proof fn lemma_twisted_len(s: Seq<u32>, i: nat)
    requires
        s.len() == N,
        i <= N,
    ensures
        twisted_upto(s, i).len() == N,
    decreases i,
{
    if i > 0 {
        lemma_twisted_len(s, (i - 1) as nat);
    }
}

/// Random number generator using the Mersenne Twister algorithm.
pub struct QRng {
    state: Vec<u32>,
    index: u32,
}

impl QRng {
    /// The state words.
    pub closed spec fn words(&self) -> Seq<u32> {
        self.state@
    }

    /// How many words of the current state have been handed out.
    pub closed spec fn position(&self) -> int {
        self.index as int
    }

    /// The state has its fixed length and the position lies within it.
    pub open spec fn wf(&self) -> bool {
        self.words().len() == N && 0 <= self.position() <= N
    }

    /// Initializes the random number seed with a u32 value.
    pub fn from_seed(seed: u32) -> (r: QRng)
        ensures
            r.wf(),
            r.words() == seeded_state(seed),
            r.position() == N,
    {
        let mut state: Vec<u32> = Vec::new();
        state.push(seed);
        let mut i: usize = 1;
        while i < N
            invariant
                1 <= i <= N,
                state@.len() == i,
                forall|j: int| 0 <= j < i ==> state@[j] == seeded_word(seed, j as nat),
            decreases N - i,
        {
            let prev = state[i - 1];
            let w = 1812433253u32.wrapping_mul(prev ^ (prev >> 30u32)).wrapping_add(i as u32);
            state.push(w);
            i = i + 1;
        }
        let r = QRng { state, index: N as u32 };
        assert(r.words() =~= seeded_state(seed));
        r
    }

    /// Generates a uniformly distributed random number in the range `[0, 1)`:
    /// the next state word, tempered, read as a fraction. The state is
    /// twisted first when every word of it has been handed out.
    pub fn next_unit(&mut self) -> (r: Q64)
        requires
            old(self).wf(),
        ensures
            final(self).wf(),
            0 <= r.bits < 4294967296,
            ({
                let fresh = old(self).position() >= N;
                let s = if fresh { twisted_upto(old(self).words(), N as nat) } else { old(self).words() };
                let at = if fresh { 0 } else { old(self).position() };
                &&& final(self).words() == s
                &&& final(self).position() == at + 1
                &&& r.bits == temper(s[at]) as i64
            }),
    {
        if self.index >= N as u32 {
            self.twist();
        }
        let y0 = self.state[self.index as usize];
        let y1 = y0 ^ (y0 >> 11u32);
        let y2 = y1 ^ ((y1 << 7u32) & 0x9d2c5680u32);
        let y3 = y2 ^ ((y2 << 15u32) & 0xefc60000u32);
        let y4 = y3 ^ (y3 >> 18u32);
        self.index = self.index + 1;
        Q64::from_bits(y4 as i64)
    }

    /// Twists every word of the state in place, in order, and restarts the
    /// position.
    fn twist(&mut self)
        requires
            old(self).wf(),
        ensures
            final(self).wf(),
            final(self).words() == twisted_upto(old(self).words(), N as nat),
            final(self).position() == 0,
    {
        let ghost s0 = self.state@;
        let mut i: usize = 0;
        while i < N
            invariant
                0 <= i <= N,
                self.state@.len() == N,
                self.state@ == twisted_upto(s0, i as nat),
                self.index <= N,
                s0.len() == N,
            decreases N - i,
        {
            proof {
                lemma_twisted_len(s0, i as nat);
            }
            let a = self.state[i];
            let b = self.state[(i + 1) % N];
            let hi = a & 0x80000000u32;
            let lo = b & 0x7fffffffu32;
            assert(hi <= 0x80000000u32) by (bit_vector)
                requires
                    hi == a & 0x80000000u32,
            ;
            assert(lo <= 0x7fffffffu32) by (bit_vector)
                requires
                    lo == b & 0x7fffffffu32,
            ;
            let x = hi + lo;
            let mut x_a = x >> 1u32;
            if x % 2 != 0 {
                x_a = x_a ^ 0x9908b0dfu32;
            }
            let v = self.state[(i + M) % N] ^ x_a;
            self.state.set(i, v);
            i = i + 1;
        }
        self.index = 0;
    }
}

} // verus!
