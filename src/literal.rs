//! Digit strings in base 2, 10 and 16, as the literals of the source language
//! write them.
use vstd::prelude::*;

verus! {

/// The value of a digit character, or 16 for a character that is no digit in
/// any base up to 16.
pub open spec fn digit_value(c: char) -> nat {
    let u = c as u32;
    if 48 <= u <= 57 {
        (u - 48) as nat
    } else if 97 <= u <= 102 {
        (u - 87) as nat
    } else if 65 <= u <= 70 {
        (u - 55) as nat
    } else {
        16
    }
}

/// Every character of `s` is a digit in `base`.
pub open spec fn all_digits(s: Seq<char>, base: nat) -> bool {
    forall|i: int| 0 <= i < s.len() ==> digit_value(#[trigger] s[i]) < base
}

/// The number that the digits `s` write in `base`, most significant first.
pub open spec fn digits_value(s: Seq<char>, base: nat) -> nat
    decreases s.len(),
{
    if s.len() == 0 {
        0
    } else {
        digits_value(s.drop_last(), base) * base + digit_value(s.last())
    }
}

/// What reading a digit string yields.
#[derive(Debug, Clone, Copy, PartialEq, Eq, Structural)]
pub enum DigitScan {
    /// A non-empty digit string whose value is within the limit.
    Value(u32),
    /// A non-empty digit string whose value exceeds the limit.
    TooLarge,
    /// Empty, or holding a character that is no digit in the base.
    Malformed,
}

/// Reading the digit string `s` in `base` against an upper bound `limit`.
pub open spec fn scan_spec(s: Seq<char>, base: nat, limit: nat) -> DigitScan {
    if s.len() == 0 || !all_digits(s, base) {
        DigitScan::Malformed
    } else if digits_value(s, base) > limit {
        DigitScan::TooLarge
    } else {
        DigitScan::Value(digits_value(s, base) as u32)
    }
}

proof fn lemma_digits_push(s: Seq<char>, c: char, base: nat)
    ensures
        digits_value(s.push(c), base) == digits_value(s, base) * base + digit_value(c),
{
    assert(s.push(c).drop_last() =~= s);
}

fn digit_of(c: char) -> (r: u32)
    ensures
        r as nat == digit_value(c),
{
    let u = c as u32;
    if 48 <= u && u <= 57 {
        u - 48
    } else if 97 <= u && u <= 102 {
        u - 87
    } else if 65 <= u && u <= 70 {
        u - 55
    } else {
        16
    }
}

/// Reads the digits `w[start..end]` in `base`, with `limit` as the largest
/// value accepted.
pub fn scan_digits(w: &[char], start: usize, end: usize, base: u32, limit: u32) -> (r: DigitScan)
    requires
        start <= end <= w@.len(),
        2 <= base <= 16,
        limit <= 0x100_0000,
    ensures
        r == scan_spec(w@.subrange(start as int, end as int), base as nat, limit as nat),
{
    let ghost s = w@.subrange(start as int, end as int);
    let mut acc: u32 = 0;
    let mut over = false;
    let mut i = start;
    while i < end
        invariant
            start <= i <= end <= w@.len(),
            s == w@.subrange(start as int, end as int),
            2 <= base <= 16,
            limit <= 0x100_0000,
            all_digits(w@.subrange(start as int, i as int), base as nat),
            !over ==> acc as nat == digits_value(w@.subrange(start as int, i as int), base as nat),
            !over ==> acc <= limit,
            over ==> digits_value(w@.subrange(start as int, i as int), base as nat) > limit,
        decreases end - i,
    {
        let d = digit_of(w[i]);
        let ghost pre = w@.subrange(start as int, i as int);
        proof {
            assert(w@.subrange(start as int, i + 1) =~= pre.push(w@[i as int]));
            lemma_digits_push(pre, w@[i as int], base as nat);
        }
        if d >= base {
            proof {
                assert(s[i - start] == w@[i as int]);
            }
            return DigitScan::Malformed;
        }
        proof {
            assert forall|j: int| 0 <= j < i + 1 - start implies
                digit_value(#[trigger] w@.subrange(start as int, i + 1)[j]) < base by {
                if j < i - start {
                    assert(w@.subrange(start as int, i + 1)[j] == pre[j]);
                }
            }
        }
        if !over {
            proof {
                assert(acc as nat * base as nat <= 0x100_0000 * 16) by (nonlinear_arith)
                    requires acc <= 0x100_0000, base <= 16;
            }
            let next = acc * base + d;
            if next > limit {
                over = true;
            } else {
                acc = next;
            }
        } else {
            proof {
                let v = digits_value(pre, base as nat);
                assert(v * base as nat + digit_value(w@[i as int]) > limit) by (nonlinear_arith)
                    requires v > limit, base >= 2;
            }
        }
        i = i + 1;
    }
    proof {
        assert(w@.subrange(start as int, end as int) =~= s);
    }
    if start == end {
        return DigitScan::Malformed;
    }
    if over {
        DigitScan::TooLarge
    } else {
        DigitScan::Value(acc)
    }
}

} // verus!
