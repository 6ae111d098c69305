//! Field maps: which operand of a line fills each letter of a template.
use vstd::prelude::*;

verus! {

/// No letter appears twice.
pub open spec fn letters_distinct(e: Seq<(char, usize)>) -> bool {
    forall|i: int, j: int| 0 <= i < j < e.len() ==> #[trigger] e[i].0 != #[trigger] e[j].0
}

/// The operand index that the last entry for letter `c` names.
pub open spec fn field_lookup(e: Seq<(char, usize)>, c: char) -> Option<usize>
    decreases e.len(),
{
    if e.len() == 0 {
        None
    } else if e.last().0 == c {
        Some(e.last().1)
    } else {
        field_lookup(e.drop_last(), c)
    }
}

/// A field map with distinct letters; each letter names a 0-based operand
/// index into the line, the opcode counted.
#[derive(Debug, Clone, PartialEq, Eq)]
pub struct Encoding(Vec<(char, usize)>);

impl View for Encoding {
    type V = Seq<(char, usize)>;

    closed spec fn view(&self) -> Seq<(char, usize)> {
        self.0@
    }
}

impl Encoding {
    /// A field map from its entries; `None` where a letter appears twice.
    pub fn new(encoding: Vec<(char, usize)>) -> (r: Option<Encoding>)
        ensures
            letters_distinct(encoding@) ==> (r matches Some(e) && e@ == encoding@),
            !letters_distinct(encoding@) ==> r is None,
    {
        let n = encoding.len();
        let mut i: usize = 0;
        while i < n
            invariant
                n == encoding@.len(),
                i <= n,
                forall|a: int, b: int| 0 <= a < b < n && a < i ==> encoding@[a].0 != encoding@[b].0,
            decreases n - i,
        {
            let mut j: usize = i + 1;
            while j < n
                invariant
                    n == encoding@.len(),
                    i < n,
                    i + 1 <= j <= n,
                    forall|a: int, b: int| 0 <= a < b < n && a < i ==> encoding@[a].0 != encoding@[b].0,
                    forall|b: int| i < b < j ==> encoding@[i as int].0 != encoding@[b].0,
                decreases n - j,
            {
                if encoding[i].0 == encoding[j].0 {
                    return None;
                }
                j = j + 1;
            }
            i = i + 1;
        }
        Some(Encoding(encoding))
    }

    /// The operand index for letter `c`, if the map has one.
    pub fn get(&self, c: char) -> (r: Option<usize>)
        ensures
            r == field_lookup(self@, c),
    {
        let mut j = self.0.len();
        proof {
            assert(self@.subrange(0, j as int) =~= self@);
        }
        while j > 0
            invariant
                j <= self@.len(),
                field_lookup(self@, c) == field_lookup(self@.subrange(0, j as int), c),
            decreases j,
        {
            proof {
                assert(self@.subrange(0, j as int).drop_last() =~= self@.subrange(0, j - 1));
            }
            if self.0[j - 1].0 == c {
                return Some(self.0[j - 1].1);
            }
            j = j - 1;
        }
        None
    }
}

} // verus!
