//! Lists of strings that grow by appending, in order and with duplicates
//! kept.

use vstd::prelude::*;

verus! {

/// The strings of an optional list; none where the list is absent.
pub open spec fn listed(list: Option<Vec<String>>) -> Seq<Seq<char>> {
    match list {
        Some(items) => items.deep_view(),
        None => Seq::empty(),
    }
}

/// Appends a copy of each string of `added` to `list`, in order.
pub fn append_strings(list: &mut Vec<String>, added: &Vec<String>)
    ensures
        final(list).deep_view() == old(list).deep_view() + added.deep_view(),
{
    let mut i: usize = 0;
    while i < added.len()
        invariant
            i <= added.len(),
            list.deep_view() == old(list).deep_view() + added.deep_view().take(i as int),
        decreases added.len() - i,
    {
        let ghost before = list.deep_view();
        list.push(added[i].clone());
        assert(list.deep_view() =~= before.push(added[i as int]@));
        i += 1;
    }
}

/// Appends a copy of each string of `added` to `list`, where `added` is
/// there.
pub fn append_listed(list: &mut Vec<String>, added: &Option<Vec<String>>)
    ensures
        final(list).deep_view() == old(list).deep_view() + listed(*added),
{
    match added {
        Some(items) => append_strings(list, items),
        None => {},
    }
}

} // verus!
