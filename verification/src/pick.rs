//! Picking an entry by hand: what the picker is shown and what its answer
//! means.

use vstd::prelude::*;
use vstd::string::*;

verus! {

/// The label of an entry in the picker: its title, behind the path of its
/// group unless groups are hidden.
pub open spec fn label_of(group: Seq<char>, title: Seq<char>, hide_groups: bool) -> Seq<char> {
    if hide_groups {
        title
    } else {
        "/"@ + group + "/"@ + title
    }
}

/// Writes the label of an entry.
pub fn entry_label(group: &str, title: &str, hide_groups: bool) -> (label: String)
    ensures
        label@ == label_of(group@, title@, hide_groups),
{
    if hide_groups {
        String::from_str(title)
    } else {
        let mut label = String::from_str("/");
        label.append(group);
        label.append("/");
        label.append(title);
        label
    }
}

/// The entry that the user picked, as its place among the `entries` that
/// were shown: the one item selected, where the picker was not aborted
/// and exactly one item was selected.
pub open spec fn picked_of(aborted: bool, selected: Seq<usize>, entries: nat) -> Option<usize> {
    if !aborted && selected.len() == 1 && selected[0] < entries {
        Some(selected[0])
    } else {
        None
    }
}

/// Reads the answer of the picker. `selected` holds the places of the
/// items that it reports as selected.
pub fn picked(aborted: bool, selected: &Vec<usize>, entries: usize) -> (entry: Option<usize>)
    ensures
        entry == picked_of(aborted, selected@, entries as nat),
{
    if !aborted && selected.len() == 1 && selected[0] < entries {
        Some(selected[0])
    } else {
        None
    }
}

} // verus!
