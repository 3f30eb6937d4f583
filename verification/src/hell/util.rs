use vstd::prelude::*;

verus! {

/// Linear search: does the vector hold `x`?
pub(crate) fn vec_contains(v: &Vec<usize>, x: usize) -> (r: bool)
    ensures
        r <==> v@.contains(x),
{
    let mut i: usize = 0;
    while i < v.len()
        invariant
            i <= v@.len(),
            forall|k: int| 0 <= k < i ==> v@[k] != x,
        decreases v@.len() - i,
    {
        if v[i] == x {
            return true;
        }
        i = i + 1;
    }
    false
}

/// Linear search for the first index holding `x`.
pub(crate) fn vec_find(v: &Vec<usize>, x: usize) -> (r: Option<usize>)
    ensures
        r matches Some(i) ==> i < v@.len() && v@[i as int] == x,
        r is None ==> !v@.contains(x),
{
    let mut i: usize = 0;
    while i < v.len()
        invariant
            i <= v@.len(),
            forall|k: int| 0 <= k < i ==> v@[k] != x,
        decreases v@.len() - i,
    {
        if v[i] == x {
            return Some(i);
        }
        i = i + 1;
    }
    None
}

/// Removing the element at index `i` from a duplicate-free sequence keeps
/// the sequence duplicate-free and removes exactly that element from the
/// set of values held.
pub(crate) proof fn lemma_remove_at(s: Seq<usize>, i: int)
    requires
        0 <= i < s.len(),
        s.no_duplicates(),
    ensures
        s.remove(i).no_duplicates(),
        s.remove(i).to_set() =~= s.to_set().remove(s[i]),
        !s.remove(i).contains(s[i]),
{
    s.remove_ensures(i);
    let r = s.remove(i);
    assert forall|p: int, q: int|
        (0 <= p < r.len() && 0 <= q < r.len() && p != q) implies r[p] != r[q] by {
        let sp: int = if p < i { p } else { p + 1 };
        let sq: int = if q < i { q } else { q + 1 };
        assert(r[p] == s[sp]);
        assert(r[q] == s[sq]);
    }
    assert forall|x: usize| r.contains(x) implies s.contains(x) && x != s[i] by {
        let k = choose|k: int| 0 <= k < r.len() && r[k] == x;
        if k < i {
            assert(s[k] == x);
        } else {
            assert(s[k + 1] == x);
        }
    }
    assert forall|x: usize| s.contains(x) && x != s[i] implies r.contains(x) by {
        let k = choose|k: int| 0 <= k < s.len() && s[k] == x;
        if k < i {
            assert(r[k] == x);
        } else {
            assert(r[k - 1] == x);
        }
    }
}

/// Pushing a value that a duplicate-free sequence does not hold keeps the
/// sequence duplicate-free and inserts exactly that value into the set of
/// values held.
pub(crate) proof fn lemma_push_fresh(s: Seq<usize>, x: usize)
    requires
        s.no_duplicates(),
        !s.contains(x),
    ensures
        s.push(x).no_duplicates(),
        s.push(x).to_set() =~= s.to_set().insert(x),
{
    let r = s.push(x);
    assert forall|p: int, q: int|
        (0 <= p < r.len() && 0 <= q < r.len() && p != q) implies r[p] != r[q] by {
        if p < s.len() && q < s.len() {
        } else if p < s.len() {
            assert(!s.contains(x));
            assert(s[p] != x);
        } else {
            assert(!s.contains(x));
            assert(s[q] != x);
        }
    }
    assert forall|y: usize| r.contains(y) implies s.to_set().insert(x).contains(y) by {
        let k = choose|k: int| 0 <= k < r.len() && r[k] == y;
        if k < s.len() {
            assert(s[k] == y);
        }
    }
    assert forall|y: usize| s.to_set().insert(x).contains(y) implies r.contains(y) by {
        if y == x {
            assert(r[s.len() as int] == y);
        } else {
            let k = choose|k: int| 0 <= k < s.len() && s[k] == y;
            assert(r[k] == y);
        }
    }
}

} // verus!
