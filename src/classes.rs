use vstd::prelude::*;

verus! {

/// The views of a list of class fragments.
pub open spec fn fragment_views(parts: Seq<&str>) -> Seq<Seq<char>> {
    parts.map_values(|p: &str| p@)
}

/// A class attribute built from fragments: the non-empty fragments in their
/// order, separated by one space each.
pub open spec fn class_join(parts: Seq<Seq<char>>) -> Seq<char>
    decreases parts.len(),
{
    if parts.len() == 0 {
        Seq::empty()
    } else {
        let head = class_join(parts.drop_last());
        let last = parts.last();
        if last.len() == 0 {
            head
        } else if head.len() == 0 {
            last
        } else {
            head + seq![' '] + last
        }
    }
}

/// Joins class fragments into one class attribute, skipping empty ones.
pub fn class_list(parts: &Vec<&str>) -> (r: String)
    ensures
        r@ == class_join(fragment_views(parts@)),
{
    let mut r = String::new();
    let mut i: usize = 0;
    while i < parts.len()
        invariant
            0 <= i <= parts.len(),
            r@ == class_join(fragment_views(parts@.take(i as int))),
        decreases parts.len() - i,
    {
        let p: &str = parts[i];
        let ghost head = r@;
        let ghost next = fragment_views(parts@.take(i + 1));
        assert(next.drop_last() =~= fragment_views(parts@.take(i as int)));
        assert(next.last() == p@);
        if !p.is_empty() {
            if !r.as_str().is_empty() {
                r.append(" ");
                proof {
                    reveal_strlit(" ");
                    assert(" "@ =~= seq![' ']);
                }
                assert(r@ =~= head + seq![' ']);
                r.append(p);
                assert(r@ == head + seq![' '] + p@);
            } else {
                r.append(p);
                assert(r@ =~= p@);
            }
        }
        assert(r@ == class_join(next));
        i = i + 1;
    }
    assert(parts@.take(parts.len() as int) =~= parts@);
    r
}

} // verus!
