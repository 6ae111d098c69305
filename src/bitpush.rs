//! A 32-bit accumulator filled most significant bit first.
use vstd::prelude::*;

verus! {

/// 2 to the power `n`.
pub open spec fn two_to(n: nat) -> nat
    decreases n,
{
    if n == 0 {
        1
    } else {
        2 * two_to((n - 1) as nat)
    }
}

/// Powers of two multiply by adding exponents.
pub proof fn lemma_two_to_adds(a: nat, b: nat)
    ensures
        two_to(a + b) == two_to(a) * two_to(b),
        two_to(a) >= 1,
    decreases a,
{
    if a > 0 {
        let a1 = (a - 1) as nat;
        lemma_two_to_adds(a1, b);
        assert(a1 + b + 1 == a + b);
        assert(two_to(a + b) == 2 * two_to(a1 + b));
        assert(two_to(a) == 2 * two_to(a1));
        let x = two_to(a1);
        let y = two_to(b);
        assert(2 * (x * y) == (2 * x) * y) by (nonlinear_arith);
    } else {
        assert(two_to(0) == 1);
        assert(a + b == b);
    }
}

/// Powers of two grow with the exponent.
pub proof fn lemma_two_to_mono(a: nat, b: nat)
    requires
        a <= b,
    ensures
        two_to(a) <= two_to(b),
    decreases b,
{
    if a < b {
        lemma_two_to_mono(a, (b - 1) as nat);
        lemma_two_to_adds((b - 1) as nat, 0);
    }
}

/// 2^32.
pub proof fn lemma_two_to_32()
    ensures
        two_to(32) == 0x1_0000_0000,
        two_to(16) == 0x1_0000,
{
    reveal_with_fuel(two_to, 33);
}

/// 2 to the power `n`, for `n <= 32`.
pub fn two_to_exec(n: usize) -> (r: u64)
    requires
        n <= 32,
    ensures
        r == two_to(n as nat),
        r <= 0x1_0000_0000,
{
    let mut r: u64 = 1;
    let mut i: usize = 0;
    while i < n
        invariant
            i <= n <= 32,
            r == two_to(i as nat),
        decreases n - i,
    {
        proof {
            lemma_two_to_mono(i as nat, 31);
            lemma_two_to_32();
            reveal_with_fuel(two_to, 33);
        }
        r = r * 2;
        i = i + 1;
    }
    proof {
        lemma_two_to_mono(n as nat, 32);
        lemma_two_to_32();
    }
    r
}

/// The bits pushed so far sit at the top of `state`; the rest is zero.
pub struct BitPush {
    state: u32,
    filled: usize,
}

impl BitPush {
    /// How many bits have been pushed.
    pub closed spec fn len(&self) -> nat {
        self.filled as nat
    }

    /// The bits pushed so far, read as a binary number.
    pub closed spec fn value(&self) -> nat {
        self.state as nat / two_to((32 - self.filled) as nat)
    }

    /// The accumulator's internal consistency.
    pub closed spec fn wf(&self) -> bool {
        &&& self.filled <= 32
        &&& self.state as nat % two_to((32 - self.filled) as nat) == 0
    }

    /// An empty accumulator.
    pub fn new() -> (r: BitPush)
        ensures
            r.wf(),
            r.len() == 0,
            r.value() == 0,
    {
        let r = BitPush { state: 0, filled: 0 };
        proof {
            lemma_two_to_32();
            assert((32 - r.filled) as nat == 32);
            assert(0nat % two_to(32) == 0);
            assert(0nat / two_to(32) == 0);
        }
        r
    }

    proof fn lemma_value_bound(&self)
        requires
            self.wf(),
        ensures
            self.value() < two_to(self.len()),
            self.state as nat == self.value() * two_to((32 - self.len()) as nat),
    {
        let k = (32 - self.filled) as nat;
        lemma_two_to_adds(self.filled as nat, k);
        lemma_two_to_adds(k, 0);
        lemma_two_to_32();
        let p = two_to(k);
        let v = self.state as nat / p;
        assert(self.state as nat == v * p) by (nonlinear_arith)
            requires self.state as nat % p == 0, p > 0, v == self.state as nat / p;
        assert(v < two_to(self.filled as nat)) by (nonlinear_arith)
            requires self.state as nat == v * p, self.state < 0x1_0000_0000, two_to(self.filled as nat) * p == 0x1_0000_0000, p > 0;
    }

    fn deposit(&mut self, piece: u64, count: usize)
        requires
            old(self).wf(),
            old(self).len() + count <= 32,
            piece < two_to(count as nat),
        ensures
            final(self).wf(),
            final(self).len() == old(self).len() + count,
            final(self).value() == old(self).value() * two_to(count as nat) + piece,
    {
        proof {
            self.lemma_value_bound();
        }
        let ghost v = self.value();
        let shift = 32 - self.filled - count;
        let p = two_to_exec(shift);
        let ghost q = two_to(count as nat);
        let ghost f = self.filled as nat;
        let ghost c = count as nat;
        let ghost pn = p as nat;
        let ghost pc = piece as nat;
        let ghost st = self.state as nat;
        proof {
            lemma_two_to_adds(c, shift as nat);
            lemma_two_to_adds(shift as nat, 0);
            lemma_two_to_adds(f, c);
            lemma_two_to_adds(f + c, shift as nat);
            lemma_two_to_32();
            assert(f + c + shift as nat == 32);
            assert(two_to(f + c) * pn == 0x1_0000_0000);
            assert((32 - f) as nat == c + shift as nat);
            assert(v * q + pc < two_to(f + c)) by (nonlinear_arith)
                requires v < two_to(f), pc < q, two_to(f + c) == two_to(f) * q;
            assert((v * q + pc) * pn < 0x1_0000_0000) by (nonlinear_arith)
                requires v * q + pc < two_to(f + c), two_to(f + c) * pn == 0x1_0000_0000, pn > 0;
            assert(st + pc * pn == (v * q + pc) * pn) by (nonlinear_arith)
                requires st == v * two_to((32 - f) as nat), two_to((32 - f) as nat) == q * pn;
        }
        let next = self.state as u64 + piece * p;
        self.state = next as u32;
        self.filled = self.filled + count;
        proof {
            let w = v * q + pc;
            let st2 = self.state as nat;
            assert(st2 == st + pc * pn);
            assert(st2 == w * pn);
            assert((32 - self.filled) as nat == shift as nat);
            assert(st2 % pn == 0 && st2 / pn == w) by (nonlinear_arith)
                requires st2 == w * pn, pn > 0;
        }
    }

    /// Pushes `count` one bits.
    pub fn push_ones(&mut self, count: usize)
        requires
            old(self).wf(),
            old(self).len() + count <= 32,
        ensures
            final(self).wf(),
            final(self).len() == old(self).len() + count,
            final(self).value() == old(self).value() * two_to(count as nat) + (two_to(count as nat) - 1),
    {
        proof {
            lemma_two_to_adds(count as nat, 0);
        }
        let ones = two_to_exec(count) - 1;
        self.deposit(ones, count);
    }

    /// Pushes `count` zero bits.
    pub fn push_zeros(&mut self, count: usize)
        requires
            old(self).wf(),
            old(self).len() + count <= 32,
        ensures
            final(self).wf(),
            final(self).len() == old(self).len() + count,
            final(self).value() == old(self).value() * two_to(count as nat),
    {
        proof {
            lemma_two_to_adds(count as nat, 0);
        }
        self.deposit(0, count);
    }

    /// Pushes the low `bits` bits of `value`; higher bits are dropped.
    pub fn push(&mut self, value: u32, bits: usize)
        requires
            old(self).wf(),
            old(self).len() + bits <= 32,
        ensures
            final(self).wf(),
            final(self).len() == old(self).len() + bits,
            final(self).value() == old(self).value() * two_to(bits as nat) + value as nat % two_to(bits as nat),
    {
        let m = two_to_exec(bits);
        proof {
            lemma_two_to_adds(bits as nat, 0);
        }
        let piece = value as u64 % m;
        self.deposit(piece, bits);
    }

    /// The word so far: the pushed bits at the top, zeros below.
    pub fn state(&self) -> (r: u32)
        requires
            self.wf(),
        ensures
            r as nat == self.value() * two_to((32 - self.len()) as nat),
    {
        proof {
            self.lemma_value_bound();
        }
        self.state
    }

    /// The finished word, once exactly 32 bits have been pushed.
    pub fn get_value(&self) -> (r: Option<u32>)
        requires
            self.wf(),
        ensures
            self.len() == 32 ==> r == Some(self.value() as u32) && self.value() < 0x1_0000_0000,
            self.len() != 32 ==> r is None,
    {
        proof {
            self.lemma_value_bound();
            lemma_two_to_32();
            assert(two_to(0) == 1);
            if self.filled == 32 {
                assert((32 - self.filled) as nat == 0);
                assert(self.state as nat / 1 == self.state as nat);
                assert(self.state as nat == self.value());
            }
        }
        if self.filled == 32 {
            Some(self.state)
        } else {
            None
        }
    }
}

} // verus!
