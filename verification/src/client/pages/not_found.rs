//! The page for a path that leads nowhere.
use vstd::prelude::*;
use vstd::string::*;

verus! {

/// The segments of a path, each behind a slash but the first.
pub open spec fn joined(segments: Seq<Seq<char>>) -> Seq<char>
    decreases segments.len(),
{
    if segments.len() == 0 {
        Seq::empty()
    } else if segments.len() == 1 {
        segments[0]
    } else {
        joined(segments.drop_last()) + "/"@ + segments.last()
    }
}

/// What the segments of a path hold.
pub open spec fn segment_texts(route: Seq<String>) -> Seq<Seq<char>> {
    route.map_values(|s: String| s@)
}

/// The line that names the path which was asked for.
pub fn route_text(route: &Vec<String>) -> (text: String)
    ensures
        text@ == "Route: /"@ + joined(segment_texts(route@)),
{
    let ghost all = segment_texts(route@);
    let mut path = String::new();
    let n: usize = route.len();
    let mut i: usize = 0;
    proof {
        assert(all.take(0) =~= Seq::<Seq<char>>::empty());
    }
    while i < n
        invariant
            n == route@.len(),
            i <= n,
            all == segment_texts(route@),
            path@ == joined(all.take(i as int)),
        decreases n - i,
    {
        proof {
            let next = all.take(i + 1);
            assert(next.drop_last() =~= all.take(i as int));
            assert(next.last() == route@[i as int]@);
            if i == 0 {
                assert(path@ + route@[0]@ =~= route@[0]@);
            }
        }
        if i > 0 {
            path.append("/");
        }
        path.append(route[i].as_str());
        i += 1;
    }
    proof {
        assert(all.take(n as int) =~= all);
    }
    String::from_str("Route: /").concat(path.as_str())
}

} // verus!
