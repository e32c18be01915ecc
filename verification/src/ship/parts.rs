//! The parts hung below a ship (gun, tail, visual cannon) and the kinds of cannon.

use vstd::prelude::*;

verus! {

#[derive(Debug, Clone, Copy, PartialEq, Eq, Structural)]
pub enum ShipCannonKind {
    Laser,
}

/// Whether no flag in the list is set.
fn none_set(flags: &Vec<bool>) -> (r: bool)
    ensures
        r == (forall|i: int| 0 <= i < flags@.len() ==> !flags@[i]),
{
    let mut i: usize = 0;
    while i < flags.len()
        invariant
            i <= flags@.len(),
            forall|j: int| 0 <= j < i ==> !flags@[j],
        decreases flags@.len() - i,
    {
        if flags[i] {
            assert(flags@[i as int]);
            return false;
        }
        i = i + 1;
    }
    true
}

/// Whether a ship lacks a part: it has no children, or none of its children is such a part.
/// `children_are_part[i]` says whether the ship's child `i` is a part of the kind looked for.
pub fn part_missing(children_are_part: Option<&Vec<bool>>) -> (missing: bool)
    ensures
        missing == (match children_are_part {
            None => true,
            Some(children) => forall|i: int| 0 <= i < children@.len() ==> !children@[i],
        }),
{
    match children_are_part {
        None => true,
        Some(children) => none_set(children),
    }
}

} // verus!
