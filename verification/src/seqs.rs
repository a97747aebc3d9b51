//! The mathematical view of a sequence of values, element by element.

use vstd::prelude::*;

verus! {

/// The views of the elements, in order.
pub open spec fn views<T: View>(s: Seq<T>) -> Seq<T::V> {
    Seq::new(s.len(), |i: int| s[i]@)
}

/// Pushing an element pushes its view.
pub proof fn lemma_views_push<T: View>(s: Seq<T>, x: T)
    ensures
        views(s.push(x)) == views(s).push(x@),
{
    assert(views(s.push(x)) =~= views(s).push(x@));
}

/// Taking a prefix takes the prefix of the views.
pub proof fn lemma_views_take<T: View>(s: Seq<T>, n: int)
    requires
        0 <= n <= s.len(),
    ensures
        views(s.take(n)) == views(s).take(n),
{
    assert(views(s.take(n)) =~= views(s).take(n));
}

/// A copy of a byte vector.
pub fn copy_bytes(bytes: &Vec<u8>) -> (out: Vec<u8>)
    ensures
        out@ == bytes@,
{
    let mut out: Vec<u8> = Vec::new();
    let mut i: usize = 0;
    while i < bytes.len()
        invariant
            i <= bytes.len(),
            out@ =~= bytes@.take(i as int),
        decreases bytes.len() - i,
    {
        out.push(bytes[i]);
        i += 1;
    }
    assert(out@ =~= bytes@);
    out
}

/// A copy of a vector of strings.
pub fn copy_strings(list: &Vec<String>) -> (out: Vec<String>)
    ensures
        views(out@) == views(list@),
{
    let mut out: Vec<String> = Vec::new();
    let mut i: usize = 0;
    while i < list.len()
        invariant
            i <= list.len(),
            views(out@) =~= views(list@).take(i as int),
        decreases list.len() - i,
    {
        let item = list[i].clone();
        proof {
            lemma_views_push(out@, item);
            assert(views(list@).take(i + 1) =~= views(list@).take(i as int).push(list@[i as int]@));
        }
        out.push(item);
        i += 1;
    }
    assert(views(out@) =~= views(list@));
    out
}

} // verus!
