//! Collections of named items in which each name occurs once (the
//! parameters of a parameter set, the clips of an effect instance).

use vstd::prelude::*;

use crate::text::text_is;

verus! {

/// An item that carries a name.
pub trait Named {
    /// The item's name.
    spec fn spec_name(&self) -> Seq<char>;

    /// The item's name.
    fn name_text(&self) -> (r: &String)
        ensures
            r@ == self.spec_name(),
    ;
}

/// No two items share a name.
pub open spec fn names_unique<T: Named>(s: Seq<T>) -> bool {
    forall|i: int, j: int|
        0 <= i < s.len() && 0 <= j < s.len() && #[trigger] s[i].spec_name()
            == #[trigger] s[j].spec_name() ==> i == j
}

/// Whether some item is called `name`.
pub open spec fn has_name<T: Named>(s: Seq<T>, name: Seq<char>) -> bool {
    exists|i: int| 0 <= i < s.len() && #[trigger] s[i].spec_name() == name
}

/// Where names are unique, a name identifies one item: the one a definition
/// placed is the one a lookup finds.
pub proof fn law_name_identifies<T: Named>(s: Seq<T>, i: int, j: int)
    requires
        names_unique(s),
        0 <= i < s.len(),
        0 <= j < s.len(),
        s[i].spec_name() == s[j].spec_name(),
    ensures
        i == j,
{
}

/// Replacing an item by one of the same name keeps names unique.
proof fn lemma_unique_after_replace<T: Named>(s: Seq<T>, i: int, x: T)
    requires
        names_unique(s),
        0 <= i < s.len(),
        x.spec_name() == s[i].spec_name(),
    ensures
        names_unique(s.update(i, x)),
{
    let t = s.update(i, x);
    assert forall|a: int, b: int|
        0 <= a < t.len() && 0 <= b < t.len() && #[trigger] t[a].spec_name()
            == #[trigger] t[b].spec_name() implies a == b by {
        assert(t[a].spec_name() == s[a].spec_name());
        assert(t[b].spec_name() == s[b].spec_name());
    }
}

/// Appending an item whose name is new keeps names unique.
proof fn lemma_unique_after_push<T: Named>(s: Seq<T>, x: T)
    requires
        names_unique(s),
        !has_name(s, x.spec_name()),
    ensures
        names_unique(s.push(x)),
{
    let t = s.push(x);
    assert forall|a: int, b: int|
        0 <= a < t.len() && 0 <= b < t.len() && #[trigger] t[a].spec_name()
            == #[trigger] t[b].spec_name() implies a == b by {
        if a < s.len() && b < s.len() {
            assert(t[a].spec_name() == s[a].spec_name());
            assert(t[b].spec_name() == s[b].spec_name());
        } else if a < s.len() {
            assert(s[a].spec_name() == x.spec_name());
        } else if b < s.len() {
            assert(s[b].spec_name() == x.spec_name());
        }
    }
}

/// The position of the item called `name`.
pub fn find_by_name<T: Named>(s: &Vec<T>, name: &String) -> (r: Option<usize>)
    ensures
        match r {
            Some(i) => i < s@.len() && s@[i as int].spec_name() == name@,
            None => !has_name(s@, name@),
        },
{
    let mut i: usize = 0;
    while i < s.len()
        invariant
            i <= s@.len(),
            forall|j: int| 0 <= j < i ==> #[trigger] s@[j].spec_name() != name@,
        decreases s.len() - i,
    {
        if text_is(name, s[i].name_text().as_str()) {
            return Some(i);
        }
        i = i + 1;
    }
    None
}

/// Puts `x` in place of the item of the same name, or appends it when its
/// name is new. Returns its position.
pub fn define_named<T: Named>(s: &mut Vec<T>, x: T) -> (r: usize)
    requires
        names_unique(old(s)@),
    ensures
        names_unique(final(s)@),
        r < final(s)@.len(),
        final(s)@[r as int] == x,
        has_name(old(s)@, x.spec_name()) ==> {
            &&& r < old(s)@.len()
            &&& old(s)@[r as int].spec_name() == x.spec_name()
            &&& final(s)@ == old(s)@.update(r as int, x)
        },
        !has_name(old(s)@, x.spec_name()) ==> {
            &&& r == old(s)@.len()
            &&& final(s)@ == old(s)@.push(x)
        },
{
    let found = find_by_name(s, x.name_text());
    match found {
        Some(i) => {
            proof {
                lemma_unique_after_replace(s@, i as int, x);
            }
            s.set(i, x);
            i
        },
        None => {
            proof {
                lemma_unique_after_push(s@, x);
            }
            let i = s.len();
            s.push(x);
            i
        },
    }
}

} // verus!
