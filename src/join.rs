//! Natural-language joining of a list: `"A, B, C and D"` rather than
//! `"A, B, C, D"`.
use vstd::prelude::*;
use vstd::string::StringExecFns;

verus! {

/// The first `k` items, joined by `", "`.
pub open spec fn commas(items: Seq<Seq<char>>, k: int) -> Seq<char>
    decreases k,
{
    if k <= 0 {
        Seq::empty()
    } else if k == 1 {
        items[0]
    } else {
        commas(items, k - 1) + ", "@ + items[k - 1]
    }
}

/// The items joined for reading: nothing for none, the item itself for one,
/// and otherwise all but the last joined by `", "`, then `" and "` and the last.
pub open spec fn natural(items: Seq<Seq<char>>) -> Seq<char> {
    if items.len() == 0 {
        Seq::empty()
    } else if items.len() == 1 {
        items[0]
    } else {
        commas(items, items.len() - 1) + " and "@ + items[items.len() - 1]
    }
}

/// The characters of each string of a list.
pub open spec fn views(items: Seq<&str>) -> Seq<Seq<char>> {
    items.map_values(|s: &str| s@)
}

/// Joins `items` for reading: see [`natural`].
pub fn natural_join_strs(items: &[&str]) -> (r: String)
    ensures
        r@ == natural(views(items@)),
{
    let ghost all = views(items@);
    let n = items.len();
    if n == 0 {
        return String::new();
    }
    let mut out = String::from_str(items[0]);
    let mut i: usize = 1;
    while i + 1 < n
        invariant
            all == views(items@),
            n == items@.len(),
            1 <= i <= n,
            n >= 2 ==> i < n,
            out@ == commas(all, i as int),
        decreases n - i,
    {
        out.append(", ");
        out.append(items[i]);
        i = i + 1;
    }
    if n >= 2 {
        out.append(" and ");
        out.append(items[n - 1]);
    }
    out
}

/// Joining a list into natural-language text.
pub trait NaturalJoin {
    /// The items joined for reading, e.g. `"A, B and C"`.
    fn natural_join(self) -> String;
}

impl<'a, 'b> NaturalJoin for &'a [&'b str] {
    fn natural_join(self) -> (r: String)
        ensures
            r@ == natural(views(self@)),
    {
        natural_join_strs(self)
    }
}

impl<'a> NaturalJoin for &'a [String] {
    fn natural_join(self) -> (r: String)
        ensures
            r@ == natural(self@.map_values(|s: String| s@)),
    {
        let mut strs: Vec<&str> = Vec::new();
        let mut i: usize = 0;
        while i < self.len()
            invariant
                0 <= i <= self@.len(),
                strs@.len() == i,
                forall|j: int| 0 <= j < i ==> #[trigger] strs@[j]@ == self@[j]@,
            decreases self@.len() - i,
        {
            strs.push(self[i].as_str());
            i = i + 1;
        }
        let r = natural_join_strs(strs.as_slice());
        assert(views(strs@) =~= self@.map_values(|s: String| s@));
        r
    }
}

} // verus!
