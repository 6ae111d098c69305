//! Bit templates: a 32-bit instruction layout written as 32 characters
//! `0`, `1` or `A`..`Z` (spaces allowed), kept as runs of equal characters.
use vstd::prelude::*;
use crate::text::chars_of;

verus! {

/// A character a template may hold: a literal bit or a field letter.
pub open spec fn is_template_char(c: char) -> bool {
    c == '0' || c == '1' || (65 <= c as u32 <= 90)
}

/// A field letter.
pub open spec fn is_field_letter(c: char) -> bool {
    65 <= c as u32 <= 90
}

/// `s` without its spaces.
pub open spec fn strip_spaces(s: Seq<char>) -> Seq<char>
    decreases s.len(),
{
    if s.len() == 0 {
        s
    } else if s.last() == ' ' {
        strip_spaces(s.drop_last())
    } else {
        strip_spaces(s.drop_last()).push(s.last())
    }
}

/// `t` as runs of equal characters, each with its length.
pub open spec fn runs_of(t: Seq<char>) -> Seq<(char, usize)>
    decreases t.len(),
{
    if t.len() == 0 {
        Seq::empty()
    } else {
        let r = runs_of(t.drop_last());
        let c = t.last();
        if r.len() > 0 && r.last().0 == c {
            r.update(r.len() - 1, (c, (r.last().1 + 1) as usize))
        } else {
            r.push((c, 1usize))
        }
    }
}

/// The total length of a run sequence.
pub open spec fn run_total(r: Seq<(char, usize)>) -> nat
    decreases r.len(),
{
    if r.len() == 0 {
        0
    } else {
        run_total(r.drop_last()) + r.last().1 as nat
    }
}

/// The characters of `t` from `i` on are all template characters.
pub open spec fn template_chars_from(t: Seq<char>, i: nat) -> Option<nat>
    decreases t.len() - i,
{
    if i >= t.len() {
        None
    } else if !is_template_char(t[i as int]) {
        Some(i)
    } else {
        template_chars_from(t, i + 1)
    }
}

/// Why a template is refused.
#[derive(Debug, Clone, Copy, PartialEq, Eq, Structural)]
pub enum TemplateError {
    /// Without spaces, the template is not 32 characters long.
    WrongLength { len: usize },
    /// The first character, counted without spaces, that is no template
    /// character.
    InvalidCharacter { ch: char, index: usize },
}

/// Reading the template text `s`.
pub open spec fn template_spec(s: Seq<char>) -> Result<Seq<(char, usize)>, TemplateError> {
    let t = strip_spaces(s);
    if t.len() != 32 {
        Err(TemplateError::WrongLength { len: t.len() as usize })
    } else {
        match template_chars_from(t, 0) {
            Some(i) => Err(TemplateError::InvalidCharacter { ch: t[i as int], index: i as usize }),
            None => Ok(runs_of(t)),
        }
    }
}

/// A run sequence is well formed: runs are non-empty, of template
/// characters, and neighbours differ.
pub open spec fn runs_wf(r: Seq<(char, usize)>) -> bool {
    &&& forall|i: int| 0 <= i < r.len() ==> #[trigger] r[i].1 >= 1 && is_template_char(r[i].0)
    &&& forall|i: int| 0 < i < r.len() ==> #[trigger] r[i].0 != r[i - 1].0
}

/// Runs cover their text exactly: their lengths add up to its length, each
/// run is non-empty and of a character of the text.
pub proof fn lemma_runs_of(t: Seq<char>)
    requires
        t.len() <= 0xFFFF_FFFF,
        forall|i: int| 0 <= i < t.len() ==> is_template_char(#[trigger] t[i]),
    ensures
        run_total(runs_of(t)) == t.len(),
        runs_wf(runs_of(t)),
        t.len() > 0 ==> runs_of(t).len() > 0 && runs_of(t).last().0 == t.last(),
        forall|i: int| 0 <= i < runs_of(t).len() ==> #[trigger] runs_of(t)[i].1 <= t.len(),
    decreases t.len(),
{
    if t.len() > 0 {
        let p = t.drop_last();
        assert forall|i: int| 0 <= i < p.len() implies is_template_char(#[trigger] p[i]) by {
            assert(p[i] == t[i]);
        }
        lemma_runs_of(p);
        let r = runs_of(p);
        let c = t.last();
        if r.len() > 0 && r.last().0 == c {
            assert(r[r.len() - 1].1 <= p.len());
            let r2 = r.update(r.len() - 1, (c, (r.last().1 + 1) as usize));
            assert(r2.drop_last() =~= r.drop_last());
            assert(run_total(r) == run_total(r.drop_last()) + r.last().1);
            assert(r2.last().1 == r.last().1 + 1);
            assert(run_total(r2) == run_total(r2.drop_last()) + r2.last().1);
            assert forall|i: int| 0 < i < r2.len() implies #[trigger] r2[i].0 != r2[i - 1].0 by {
                if i == r2.len() - 1 {
                    assert(r2[i - 1] == r[i - 1]);
                } else {
                    assert(r2[i] == r[i] && r2[i - 1] == r[i - 1]);
                }
            }
            assert forall|i: int| 0 <= i < r2.len() implies #[trigger] r2[i].1 >= 1 && is_template_char(r2[i].0) by {
                if i < r2.len() - 1 {
                    assert(r2[i] == r[i]);
                }
            }
        } else {
            let r2 = r.push((c, 1usize));
            assert(r2.drop_last() =~= r);
            assert forall|i: int| 0 < i < r2.len() implies #[trigger] r2[i].0 != r2[i - 1].0 by {
                if i < r2.len() - 1 {
                    assert(r2[i] == r[i] && r2[i - 1] == r[i - 1]);
                }
            }
            assert forall|i: int| 0 <= i < r2.len() implies #[trigger] r2[i].1 >= 1 && is_template_char(r2[i].0) by {
                if i < r2.len() - 1 {
                    assert(r2[i] == r[i]);
                }
            }
        }
    }
}

/// A template whose run lengths add up to 32.
#[derive(Debug, Clone, PartialEq, Eq)]
pub struct BitRunLengthCoding(Vec<(char, usize)>);

impl View for BitRunLengthCoding {
    type V = Seq<(char, usize)>;

    closed spec fn view(&self) -> Seq<(char, usize)> {
        self.0@
    }
}

impl BitRunLengthCoding {
    /// The runs, most significant first.
    pub fn get(&self) -> (r: &Vec<(char, usize)>)
        ensures
            r@ == self@,
    {
        &self.0
    }

    /// Reads a template text: spaces are dropped, then exactly 32
    /// characters `0`, `1` or `A`..`Z` must remain.
    pub fn parse(s: &str) -> (r: Result<BitRunLengthCoding, TemplateError>)
        ensures
            match template_spec(s@) {
                Ok(runs) => r matches Ok(b) && b@ == runs,
                Err(e) => r == Err::<BitRunLengthCoding, TemplateError>(e),
            },
    {
        let w = chars_of(s);
        let mut t: Vec<char> = Vec::new();
        let mut i: usize = 0;
        while i < w.len()
            invariant
                i <= w@.len(),
                w@ == s@,
                t@ == strip_spaces(w@.subrange(0, i as int)),
            decreases w@.len() - i,
        {
            proof {
                assert(w@.subrange(0, i + 1).drop_last() =~= w@.subrange(0, i as int));
            }
            if w[i] != ' ' {
                t.push(w[i]);
            }
            i = i + 1;
        }
        proof {
            assert(w@.subrange(0, w@.len() as int) =~= s@);
        }
        if t.len() != 32 {
            return Err(TemplateError::WrongLength { len: t.len() });
        }
        let mut k: usize = 0;
        while k < 32
            invariant
                k <= 32,
                t@.len() == 32,
                t@ == strip_spaces(s@),
                template_chars_from(t@, 0) == template_chars_from(t@, k as nat),
                forall|j: int| 0 <= j < k ==> is_template_char(#[trigger] t@[j]),
            decreases 32 - k,
        {
            let c = t[k];
            let u = c as u32;
            if !(c == '0' || c == '1' || (65 <= u && u <= 90)) {
                proof {
                    assert(template_chars_from(t@, k as nat) == Some(k as nat));
                }
                return Err(TemplateError::InvalidCharacter { ch: c, index: k });
            }
            k = k + 1;
        }
        proof {
            lemma_runs_of(t@);
        }
        let mut runs: Vec<(char, usize)> = Vec::new();
        let mut j: usize = 0;
        while j < 32
            invariant
                j <= 32,
                t@.len() == 32,
                forall|m: int| 0 <= m < 32 ==> is_template_char(#[trigger] t@[m]),
                runs@ == runs_of(t@.subrange(0, j as int)),
            decreases 32 - j,
        {
            let c = t[j];
            let ghost pre = t@.subrange(0, j as int);
            proof {
                let next = t@.subrange(0, j + 1);
                assert(next.drop_last() =~= pre);
                assert forall|m: int| 0 <= m < pre.len() implies is_template_char(#[trigger] pre[m]) by {
                    assert(pre[m] == t@[m]);
                }
                lemma_runs_of(pre);
            }
            let n = runs.len();
            if n > 0 && runs[n - 1].0 == c {
                let last = runs.pop().unwrap();
                runs.push((c, last.1 + 1));
                proof {
                    assert(runs@ =~= runs_of(t@.subrange(0, j + 1)));
                }
            } else {
                runs.push((c, 1));
            }
            j = j + 1;
        }
        proof {
            assert(t@.subrange(0, 32) =~= t@);
        }
        Ok(BitRunLengthCoding(runs))
    }
}

impl std::str::FromStr for BitRunLengthCoding {
    type Err = TemplateError;

    fn from_str(s: &str) -> Result<BitRunLengthCoding, TemplateError> {
        BitRunLengthCoding::parse(s)
    }
}

} // verus!
