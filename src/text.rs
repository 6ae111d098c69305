//! Character-level helpers over `&str` and `&[char]`.
use vstd::prelude::*;
use vstd::std_specs::iter::IteratorSpec;

verus! {

/// The characters of `s`, in order.
pub fn chars_of(s: &str) -> (r: Vec<char>)
    ensures
        r@ == s@,
{
    broadcast use vstd::string::group_string_axioms;

    let mut it = s.chars();
    let mut out: Vec<char> = Vec::new();
    loop
        invariant
            out@ + it.remaining() == s@,
            it.decrease() is Some,
        ensures
            out@ == s@,
        decreases it.decrease()->0,
    {
        let ghost before = it.remaining();
        match it.next() {
            Some(c) => {
                proof {
                    assert(out@.push(c) + it.remaining() =~= out@ + before);
                }
                out.push(c);
            },
            None => {
                proof {
                    assert(out@ + it.remaining() =~= out@);
                }
                break;
            },
        }
    }
    out
}

/// Whether the characters `w[start..end]` are exactly those of `lit`.
pub fn chars_equal(w: &[char], start: usize, end: usize, lit: &str) -> (r: bool)
    requires
        start <= end <= w@.len(),
    ensures
        r == (w@.subrange(start as int, end as int) == lit@),
{
    let n = lit.unicode_len();
    if end - start != n {
        return false;
    }
    let mut k: usize = 0;
    while k < n
        invariant
            n == lit@.len(),
            start <= end <= w@.len(),
            end - start == n,
            k <= n,
            forall|j: int| 0 <= j < k ==> w@[start + j] == lit@[j],
        decreases n - k,
    {
        if w[start + k] != lit.get_char(k) {
            proof {
                assert(w@.subrange(start as int, end as int)[k as int] != lit@[k as int]);
            }
            return false;
        }
        k = k + 1;
    }
    proof {
        assert(w@.subrange(start as int, end as int) =~= lit@);
    }
    true
}

} // verus!
