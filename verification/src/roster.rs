use crate::numerals::{append_decimal, decimal, lemma_decimal_tells_apart};
use vstd::prelude::*;
use vstd::string::*;

verus! {

/// How many dancers the game shows.
pub const ROSTER_SIZE: u32 = 100;

/// The word that every label starts with, and the blank after it.
pub open spec fn prefix() -> Seq<char> {
    seq!['D', 'a', 'n', 'c', 'e', 'r', ' ']
}

/// The label of the dancer at `index`: the word, a blank, the index.
pub open spec fn label_text(index: nat) -> Seq<char> {
    prefix() + decimal(index)
}

/// The label of the dancer at `index`.
pub fn label(index: u32) -> (name: String)
    ensures
        name@ == label_text(index as nat),
{
    proof {
        reveal_strlit("Dancer ");
    }
    let mut name = String::from_str("Dancer ");
    assert(name@ =~= prefix());
    append_decimal(&mut name, index);
    name
}

/// The labels of the first `count` dancers, in roster order. No two of
/// them are the same.
pub fn labels(count: u32) -> (names: Vec<String>)
    ensures
        names.len() == count,
        forall|i: int| 0 <= i < count ==> (#[trigger] names[i])@ == label_text(i as nat),
        forall|i: int, j: int|
            0 <= i < j < count ==> (#[trigger] names[i])@ != (#[trigger] names[j])@,
{
    let mut names: Vec<String> = Vec::new();
    let mut index: u32 = 0;
    while index < count
        invariant
            index <= count,
            names.len() == index,
            forall|i: int| 0 <= i < index ==> (#[trigger] names[i])@ == label_text(i as nat),
        decreases count - index,
    {
        names.push(label(index));
        index = index + 1;
    }
    assert forall|i: int, j: int| 0 <= i < j < count implies (#[trigger] names[i])@ != (
    #[trigger] names[j])@ by {
        lemma_labels_differ(i as nat, j as nat);
    }
    names
}

/// Dancers at different places in the roster carry different labels.
pub proof fn lemma_labels_differ(i: nat, j: nat)
    requires
        i != j,
    ensures
        label_text(i) != label_text(j),
{
    if label_text(i) == label_text(j) {
        let a = label_text(i);
        let b = label_text(j);
        assert(a.subrange(7, a.len() as int) =~= decimal(i));
        assert(b.subrange(7, b.len() as int) =~= decimal(j));
        lemma_decimal_tells_apart(i, j);
    }
}

} // verus!
