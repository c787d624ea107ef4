//! The value-list rule set: a list of values expands into code that starts
//! from an empty collection and puts every value in, so the result is a
//! deduplicated, unordered collection of the listed values.

use vstd::prelude::*;

verus! {

/// The character sequences of the given strings, in the given order.
pub open spec fn views_of(items: Seq<String>) -> Seq<Seq<char>> {
    items.map_values(|t: String| t@)
}

/// A deduplicated, unordered collection of strings.  Its view is the set
/// of character sequences it holds; the order the strings were put in is
/// no part of it.
#[derive(Debug)]
pub struct StrSet {
    items: Vec<String>,
}

impl View for StrSet {
    type V = Set<Seq<char>>;

    closed spec fn view(&self) -> Set<Seq<char>> {
        views_of(self.items@).to_set()
    }
}

proof fn lemma_push_to_set(items: Seq<String>, s: String)
    ensures
        views_of(items.push(s)).to_set() == views_of(items).to_set().insert(s@),
{
    let l = views_of(items.push(s));
    let m = views_of(items);
    assert forall|a: Seq<char>| l.contains(a) implies m.to_set().insert(s@).contains(a) by {
        let i = choose|i: int| 0 <= i < l.len() && l[i] == a;
        if i < items.len() {
            assert(m[i] == a);
            assert(m.contains(a));
        } else {
            assert(a == s@);
        }
    }
    assert forall|a: Seq<char>| m.to_set().insert(s@).contains(a) implies l.contains(a) by {
        if a == s@ {
            assert(l[items.len() as int] == a);
        } else {
            let i = choose|i: int| 0 <= i < m.len() && m[i] == a;
            assert(l[i] == a);
        }
    }
    assert(l.to_set() =~= m.to_set().insert(s@));
}

impl StrSet {
    /// No two held strings are equal: every value is held at most once.
    pub closed spec fn wf(&self) -> bool {
        forall|i: int, j: int|
            0 <= i < j < self.items@.len() ==> self.items@[i]@ != self.items@[j]@
    }

    /// An empty collection.
    pub fn new() -> (r: StrSet)
        ensures
            r.wf(),
            r@ == Set::<Seq<char>>::empty(),
    {
        let r = StrSet { items: Vec::new() };
        proof {
            assert(views_of(r.items@).len() == 0);
            assert(r@ =~= Set::<Seq<char>>::empty());
        }
        r
    }

    /// Whether the collection holds a string equal to the given one.
    pub fn contains(&self, s: &String) -> (r: bool)
        ensures
            r == self@.contains(s@),
    {
        let mut i: usize = 0;
        while i < self.items.len()
            invariant
                i <= self.items@.len(),
                forall|j: int| 0 <= j < i ==> self.items@[j]@ != s@,
            decreases self.items@.len() - i,
        {
            if self.items[i] == *s {
                assert(views_of(self.items@)[i as int] == s@);
                assert(views_of(self.items@).contains(s@));
                return true;
            }
            i = i + 1;
        }
        proof {
            assert forall|j: int| 0 <= j < views_of(self.items@).len() implies views_of(
                self.items@,
            )[j] != s@ by {
                assert(views_of(self.items@)[j] == self.items@[j]@);
            }
            assert(!views_of(self.items@).contains(s@));
        }
        false
    }

    /// Puts one more string in: afterwards the collection holds the given
    /// string besides everything it already held, still without duplicates.
    pub fn insert(&mut self, s: String)
        requires
            old(self).wf(),
        ensures
            final(self).wf(),
            final(self)@ == old(self)@.insert(s@),
    {
        let ghost sv = s@;
        let ghost prev = self.items@;
        if !self.contains(&s) {
            self.items.push(s);
            proof {
                lemma_push_to_set(prev, self.items@.last());
                assert(self.items@ =~= prev.push(self.items@.last()));
                assert forall|j: int| 0 <= j < prev.len() implies prev[j]@ != sv by {
                    assert(views_of(prev)[j] == prev[j]@);
                    assert(views_of(prev).contains(prev[j]@) ==> old(self)@.contains(prev[j]@));
                }
            }
        } else {
            proof {
                assert(old(self)@.insert(sv) =~= old(self)@);
            }
        }
    }

    /// Whether every string held here is held by the other collection too.
    pub fn subset_of(&self, other: &StrSet) -> (r: bool)
        ensures
            r == self@.subset_of(other@),
    {
        let mut i: usize = 0;
        while i < self.items.len()
            invariant
                i <= self.items@.len(),
                forall|j: int| 0 <= j < i ==> other@.contains(#[trigger] self.items@[j]@),
            decreases self.items@.len() - i,
        {
            if !other.contains(&self.items[i]) {
                proof {
                    assert(views_of(self.items@)[i as int] == self.items@[i as int]@);
                    assert(views_of(self.items@).contains(self.items@[i as int]@));
                }
                return false;
            }
            i = i + 1;
        }
        proof {
            assert forall|a: Seq<char>| self@.contains(a) implies other@.contains(a) by {
                let v = views_of(self.items@);
                let j = choose|j: int| 0 <= j < v.len() && v[j] == a;
                assert(v[j] == self.items@[j]@);
                assert(other@.contains(self.items@[j]@));
            }
        }
        true
    }
}

impl PartialEq for StrSet {
    /// Two collections are equal when they hold the same strings, in
    /// whatever order either was filled.
    fn eq(&self, other: &StrSet) -> (r: bool) {
        let fwd = self.subset_of(other);
        let bwd = other.subset_of(self);
        proof {
            if fwd && bwd {
                assert(self@ =~= other@);
            }
        }
        fwd && bwd
    }
}

impl vstd::std_specs::cmp::PartialEqSpecImpl for StrSet {
    open spec fn obeys_eq_spec() -> bool {
        true
    }

    open spec fn eq_spec(&self, other: &StrSet) -> bool {
        self@ == other@
    }
}

/// Expansion of the value-list rule set: starts from the empty collection
/// and puts every listed value in.  The result holds exactly the distinct
/// listed values.
pub fn set_of(items: &Vec<String>) -> (r: StrSet)
    ensures
        r.wf(),
        r@ == views_of(items@).to_set(),
{
    let mut r = StrSet::new();
    let mut i: usize = 0;
    while i < items.len()
        invariant
            r.wf(),
            i <= items@.len(),
            r@ == views_of(items@.take(i as int)).to_set(),
        decreases items@.len() - i,
    {
        r.insert(items[i].clone());
        proof {
            assert(items@.take(i + 1) =~= items@.take(i as int).push(items@[i as int]));
            lemma_push_to_set(items@.take(i as int), items@[i as int]);
        }
        i = i + 1;
    }
    proof {
        assert(items@.take(items@.len() as int) =~= items@);
    }
    r
}

/// Gathering values is insensitive to their order and to duplicates: two
/// value lists that hold the same values, however often and in whatever
/// order, gather to the same set.
pub proof fn lemma_gather_insensitive(a: Seq<Seq<char>>, b: Seq<Seq<char>>)
    requires
        forall|x: Seq<char>| a.contains(x) <==> b.contains(x),
    ensures
        a.to_set() == b.to_set(),
{
    assert(a.to_set() =~= b.to_set());
}

} // verus!
