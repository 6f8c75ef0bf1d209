use vstd::prelude::*;

verus! {

/// The positions of the entries of `hidden` that are false, in increasing order.
pub open spec fn visible(hidden: Seq<bool>) -> Seq<int>
    decreases hidden.len(),
{
    if hidden.len() == 0 {
        Seq::empty()
    } else if hidden.last() {
        visible(hidden.drop_last())
    } else {
        visible(hidden.drop_last()).push(hidden.len() - 1)
    }
}

/// The positions of the fields or variants that get a widget, given which are hidden.
pub fn visible_indices(hidden: &Vec<bool>) -> (r: Vec<usize>)
    ensures
        r@.map_values(|i: usize| i as int) == visible(hidden@),
{
    let mut r: Vec<usize> = Vec::new();
    let mut i: usize = 0;
    while i < hidden.len()
        invariant
            i <= hidden.len(),
            r@.map_values(|k: usize| k as int) == visible(hidden@.take(i as int)),
        decreases hidden.len() - i,
    {
        assert(hidden@.take(i + 1).drop_last() =~= hidden@.take(i as int));
        if !hidden[i] {
            let ghost before = r@;
            r.push(i);
            assert(r@.map_values(|k: usize| k as int) =~= before.map_values(|k: usize| k as int).push(
                i as int,
            ));
        }
        i += 1;
    }
    assert(hidden@.take(i as int) =~= hidden@);
    r
}

/// Whether any entry of `hidden` is set: an enum with a hidden variant gets a fallback
/// arm that shows nothing for it.
pub fn any_hidden(hidden: &Vec<bool>) -> (r: bool)
    ensures
        r == (exists|i: int| 0 <= i < hidden@.len() && hidden@[i]),
{
    let mut i: usize = 0;
    while i < hidden.len()
        invariant
            i <= hidden.len(),
            forall|j: int| 0 <= j < i ==> !hidden@[j],
        decreases hidden.len() - i,
    {
        if hidden[i] {
            return true;
        }
        i += 1;
    }
    false
}

} // verus!
