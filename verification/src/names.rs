//! The two kinds of name a poll deals in: who votes, and what is voted for.
//!
//! Both are plain text to the poll. It never looks inside a name; it only
//! asks whether two names are the same.

use vstd::prelude::*;
use vstd::string::StringExecFns;

verus! {

/// A principal that a host can authenticate: a voter or the administrator.
#[derive(Clone, Debug, PartialEq, Eq, Hash)]
pub struct Identity {
    text: String,
}

impl View for Identity {
    type V = Seq<char>;

    closed spec fn view(&self) -> Seq<char> {
        self.text@
    }
}

impl Identity {
    /// The identity that the host writes as `text`.
    pub fn new(text: &str) -> (id: Identity)
        ensures
            id@ == text@,
    {
        Identity { text: String::from_str(text) }
    }

    /// The text this identity was made from.
    pub fn as_str(&self) -> (text: &str)
        ensures
            text@ == self@,
    {
        self.text.as_str()
    }

    /// Whether both are the same principal.
    pub fn same(&self, other: &Identity) -> (r: bool)
        ensures
            r == (self@ == other@),
    {
        self.text == other.text
    }

    /// A second value for the same principal.
    pub fn duplicate(&self) -> (id: Identity)
        ensures
            id@ == self@,
    {
        Identity { text: self.text.clone() }
    }
}

/// The token that names one choice of a poll.
#[derive(Clone, Debug, PartialEq, Eq, Hash)]
pub struct Label {
    text: String,
}

impl View for Label {
    type V = Seq<char>;

    closed spec fn view(&self) -> Seq<char> {
        self.text@
    }
}

impl Label {
    /// The label spelled `text`.
    pub fn new(text: &str) -> (label: Label)
        ensures
            label@ == text@,
    {
        Label { text: String::from_str(text) }
    }

    /// The spelling of this label.
    pub fn as_str(&self) -> (text: &str)
        ensures
            text@ == self@,
    {
        self.text.as_str()
    }

    /// Whether both name the same choice.
    pub fn same(&self, other: &Label) -> (r: bool)
        ensures
            r == (self@ == other@),
    {
        self.text == other.text
    }

    /// A second value for the same choice.
    pub fn duplicate(&self) -> (label: Label)
        ensures
            label@ == self@,
    {
        Label { text: self.text.clone() }
    }
}

/// What a list of labels spells, in order.
pub open spec fn spellings(labels: Seq<Label>) -> Seq<Seq<char>> {
    labels.map_values(|l: Label| l@)
}

/// A second list of the same labels in the same order.
pub fn duplicate_labels(labels: &Vec<Label>) -> (copy: Vec<Label>)
    ensures
        spellings(copy@) == spellings(labels@),
{
    let mut copy: Vec<Label> = Vec::new();
    let mut i: usize = 0;
    while i < labels.len()
        invariant
            i <= labels.len(),
            copy.len() == i,
            forall|j: int| 0 <= j < i ==> copy[j]@ == labels[j]@,
        decreases labels.len() - i,
    {
        copy.push(labels[i].duplicate());
        i = i + 1;
    }
    copy
}

} // verus!
