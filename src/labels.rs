//! The label table: label names and the instruction index each stands for.
use vstd::prelude::*;

verus! {

/// The index that the latest definition of `name` gives; a later
/// definition of a name overrides an earlier one.
pub open spec fn label_lookup(e: Seq<(Seq<char>, usize)>, name: Seq<char>) -> Option<usize>
    decreases e.len(),
{
    if e.len() == 0 {
        None
    } else if e.last().0 == name {
        Some(e.last().1)
    } else {
        label_lookup(e.drop_last(), name)
    }
}

/// Label definitions in the order they were made.
#[derive(Debug, Clone, PartialEq, Eq)]
pub struct LabelTable {
    entries: Vec<(String, usize)>,
}

impl View for LabelTable {
    type V = Seq<(Seq<char>, usize)>;

    closed spec fn view(&self) -> Seq<(Seq<char>, usize)> {
        self.entries@.map_values(|e: (String, usize)| (e.0@, e.1))
    }
}

impl LabelTable {
    /// A table with no labels.
    pub fn new() -> (r: LabelTable)
        ensures
            r@ == Seq::<(Seq<char>, usize)>::empty(),
    {
        let r = LabelTable { entries: Vec::new() };
        proof {
            assert(r@ =~= Seq::<(Seq<char>, usize)>::empty());
        }
        r
    }

    /// Defines `name` as standing for `index`.
    pub fn insert(&mut self, name: String, index: usize)
        ensures
            final(self)@ == old(self)@.push((name@, index)),
    {
        self.entries.push((name, index));
        proof {
            assert(self@ =~= old(self)@.push((name@, index)));
        }
    }

    /// The index of the latest definition of `name`.
    pub fn get(&self, name: &String) -> (r: Option<usize>)
        ensures
            r == label_lookup(self@, name@),
    {
        let mut j = self.entries.len();
        proof {
            assert(self@.subrange(0, j as int) =~= self@);
        }
        while j > 0
            invariant
                j <= self@.len(),
                self@.len() == self.entries@.len(),
                label_lookup(self@, name@) == label_lookup(self@.subrange(0, j as int), name@),
            decreases j,
        {
            proof {
                assert(self@.subrange(0, j as int).drop_last() =~= self@.subrange(0, j - 1));
            }
            if self.entries[j - 1].0 == *name {
                return Some(self.entries[j - 1].1);
            }
            j = j - 1;
        }
        None
    }
}

} // verus!
