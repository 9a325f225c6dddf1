//! Deep copies of vectors and options whose elements copy faithfully.

use vstd::prelude::*;

verus! {

/// Cloning a `T` yields a value with the same content.
pub open spec fn clone_preserves<T: Clone + DeepView>() -> bool {
    forall|a: T, b: T| #[trigger] cloned(a, b) ==> a.deep_view() == b.deep_view()
}

/// Copies a vector element by element.
pub fn clone_vec<T: Clone + DeepView>(v: &Vec<T>) -> (r: Vec<T>)
    requires
        clone_preserves::<T>(),
    ensures
        r.deep_view() == v.deep_view(),
{
    let mut out: Vec<T> = Vec::new();
    let mut i: usize = 0;
    while i < v.len()
        invariant
            clone_preserves::<T>(),
            i <= v.len(),
            out@.len() == i,
            forall|j: int| 0 <= j < i ==> (#[trigger] out@[j]).deep_view() == v@[j].deep_view(),
        decreases v.len() - i,
    {
        let c = v[i].clone();
        assert(cloned(v@[i as int], c));
        out.push(c);
        i = i + 1;
    }
    assert(out.deep_view() =~= v.deep_view());
    out
}

/// Copies an optional value.
pub fn clone_opt<T: Clone + DeepView>(o: &Option<T>) -> (r: Option<T>)
    requires
        clone_preserves::<T>(),
    ensures
        r.deep_view() == o.deep_view(),
{
    match o {
        Some(x) => {
            let c = x.clone();
            assert(cloned(*x, c));
            Some(c)
        },
        None => None,
    }
}

/// Copies an optional vector.
pub fn clone_opt_vec<T: Clone + DeepView>(o: &Option<Vec<T>>) -> (r: Option<Vec<T>>)
    requires
        clone_preserves::<T>(),
    ensures
        r.deep_view() == o.deep_view(),
{
    match o {
        Some(v) => Some(clone_vec(v)),
        None => None,
    }
}

} // verus!
