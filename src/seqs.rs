use vstd::prelude::*;

verus! {

/// The items of `s` whose flag in `dead` is false, in order.
pub open spec fn keep<T>(s: Seq<T>, dead: Seq<bool>) -> Seq<T>
    decreases s.len(),
{
    if s.len() == 0 {
        Seq::empty()
    } else {
        let rest = keep(s.drop_last(), dead);
        if dead[s.len() - 1] { rest } else { rest.push(s.last()) }
    }
}

/// Number of true flags.
pub open spec fn count_true(s: Seq<bool>) -> nat
    decreases s.len(),
{
    if s.len() == 0 {
        0
    } else {
        count_true(s.drop_last()) + if s.last() { 1nat } else { 0nat }
    }
}

/// The items of `v` whose flag in `dead` is false, in order.
pub fn keep_alive<T: Copy>(v: &Vec<T>, dead: &Vec<bool>) -> (r: Vec<T>)
    requires
        dead.len() == v.len(),
    ensures
        r@ == keep(v@, dead@),
        forall|k: int| 0 <= k < r@.len() ==> v@.contains(#[trigger] r@[k]),
{
    let mut r: Vec<T> = Vec::new();
    let mut i: usize = 0;
    while i < v.len()
        invariant
            i <= v.len(),
            dead.len() == v.len(),
            r@ == keep(v@.subrange(0, i as int), dead@),
            forall|k: int| 0 <= k < r@.len() ==> v@.contains(#[trigger] r@[k]),
        decreases v.len() - i,
    {
        assert(v@.subrange(0, i + 1).drop_last() =~= v@.subrange(0, i as int));
        if !dead[i] {
            r.push(v[i]);
            assert(v@.contains(v@[i as int]));
        }
        i += 1;
    }
    assert(v@.subrange(0, v.len() as int) =~= v@);
    r
}

} // verus!
