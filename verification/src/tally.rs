//! The running count per option.

use vstd::prelude::*;
use crate::names::Label;

verus! {

/// One option with the votes counted for it.
struct Entry {
    label: Label,
    count: u32,
}

/// A count for each of a closed set of labels. No label has two entries.
pub struct Tally {
    entries: Vec<Entry>,
}

impl View for Tally {
    type V = Map<Seq<char>, nat>;

    closed spec fn view(&self) -> Map<Seq<char>, nat> {
        Map::new(
            |label: Seq<char>| self.labels().contains(label),
            |label: Seq<char>| self.entries[self.labels().index_of(label)].count as nat,
        )
    }
}

impl Tally {
    /// The labels that have an entry, in the order in which they came.
    closed spec fn labels(&self) -> Seq<Seq<char>> {
        self.entries@.map_values(|e: Entry| e.label@)
    }

    /// No label has two entries.
    pub closed spec fn wf(&self) -> bool {
        self.labels().no_duplicates()
    }

    /// An entry is found under its own label.
    proof fn lemma_entry_at(&self, i: int)
        requires
            self.wf(),
            0 <= i < self.entries.len(),
        ensures
            self@.contains_key(self.entries[i].label@),
            self@[self.entries[i].label@] == self.entries[i].count,
    {
        assert(self.labels()[i] == self.entries[i].label@);
    }

    /// A tally without entries.
    pub fn new() -> (tally: Tally)
        ensures
            tally.wf(),
            tally@ == Map::<Seq<char>, nat>::empty(),
    {
        Tally { entries: Vec::new() }
    }

    /// Where the entry of `label` stands, if it has one.
    fn position(&self, label: &Label) -> (at: Option<usize>)
        requires
            self.wf(),
        ensures
            match at {
                Some(i) => i < self.entries.len() && self.entries[i as int].label@ == label@,
                None => !self.labels().contains(label@),
            },
    {
        let mut i: usize = 0;
        while i < self.entries.len()
            invariant
                i <= self.entries.len(),
                forall|j: int| 0 <= j < i ==> self.entries[j].label@ != label@,
            decreases self.entries.len() - i,
        {
            if self.entries[i].label.same(label) {
                return Some(i);
            }
            i = i + 1;
        }
        None
    }

    /// The count stored under `label`, if the label has an entry.
    pub fn get(&self, label: &Label) -> (count: Option<u32>)
        requires
            self.wf(),
        ensures
            match count {
                Some(c) => self@.contains_key(label@) && self@[label@] == c,
                None => !self@.contains_key(label@),
            },
    {
        match self.position(label) {
            Some(i) => {
                proof {
                    self.lemma_entry_at(i as int);
                }
                Some(self.entries[i].count)
            },
            None => None,
        }
    }

    /// Stores `count` under `label`, in place of what was there.
    pub fn set(&mut self, label: &Label, count: u32)
        requires
            old(self).wf(),
        ensures
            final(self).wf(),
            final(self)@ == old(self)@.insert(label@, count as nat),
    {
        let at = self.position(label);
        let ghost before = *self;
        match at {
            Some(i) => {
                self.entries.set(i, Entry { label: label.duplicate(), count });
                assert(self.labels() =~= before.labels());
            },
            None => {
                self.entries.push(Entry { label: label.duplicate(), count });
            },
        }
        proof {
            let k = if at is Some { at->0 as int } else { before.entries.len() as int };
            assert(self.labels()[k] == label@);
            assert(self.wf()) by {
                assert forall|i: int, j: int|
                    0 <= i < self.labels().len() && 0 <= j < self.labels().len() && i != j implies self.labels()[i]
                    != self.labels()[j] by {
                    if at is None {
                        if i < before.labels().len() {
                            assert(before.labels()[i] == self.labels()[i]);
                        }
                        if j < before.labels().len() {
                            assert(before.labels()[j] == self.labels()[j]);
                        }
                    }
                }
            }
            assert forall|other: Seq<char>| #[trigger]
                self@.contains_key(other) == before@.insert(label@, count as nat).contains_key(
                    other,
                ) by {
                if before.labels().contains(other) {
                    let j = before.labels().index_of(other);
                    assert(self.labels()[j] == other);
                }
                if self.labels().contains(other) && other != label@ {
                    let j = self.labels().index_of(other);
                    assert(before.labels()[j] == other);
                }
            }
            assert forall|other: Seq<char>| self@.contains_key(other) implies #[trigger] self@[other]
                == before@.insert(label@, count as nat)[other] by {
                let j = self.labels().index_of(other);
                self.lemma_entry_at(j);
                if other != label@ {
                    before.lemma_entry_at(j);
                }
            }
        }
    }
}

} // verus!
