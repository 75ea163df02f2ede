//! The free-form build options of an entry: a mapping from names to values,
//! kept in dictionary order of the names so that equal mappings are written
//! out the same way whatever the order in which they were filled.

use vstd::prelude::*;
use crate::text::{
    before, is_before, lemma_before_irreflexive, lemma_before_total, lemma_before_transitive,
    same_text,
};

verus! {

/// A name with its value, as sequences of characters.
pub type Pair = (Seq<char>, Seq<char>);

/// The view of each pair of a sequence.
pub open spec fn pair_views(pairs: Seq<(String, String)>) -> Seq<Pair> {
    pairs.map_values(|p: (String, String)| (p.0@, p.1@))
}

/// The names stand in dictionary order, each before all that follow it.
pub open spec fn ascending(s: Seq<Pair>) -> bool {
    forall|i: int, j: int| 0 <= i < j < s.len() ==> before(#[trigger] s[i].0, #[trigger] s[j].0)
}

/// The value that stands with `name`, where the name occurs.
pub open spec fn lookup(s: Seq<Pair>, name: Seq<char>) -> Option<Seq<char>>
    decreases s.len(),
{
    if s.len() == 0 {
        None
    } else if s[0].0 == name {
        Some(s[0].1)
    } else {
        lookup(s.drop_first(), name)
    }
}

/// `s` as a mapping from names to values.
pub open spec fn as_map(s: Seq<Pair>) -> Map<Seq<char>, Seq<char>> {
    Map::new(|name: Seq<char>| lookup(s, name) is Some, |name: Seq<char>| lookup(s, name)->0)
}

/// In an ascending sequence each name finds its own value.
pub proof fn lemma_lookup_index(s: Seq<Pair>, j: int)
    requires
        ascending(s),
        0 <= j < s.len(),
    ensures
        lookup(s, s[j].0) == Some(s[j].1),
    decreases s.len(),
{
    if j > 0 {
        assert(before(s[0].0, s[j].0));
        lemma_before_irreflexive(s[j].0, 0);
        let rest = s.drop_first();
        assert(ascending(rest)) by {
            assert forall|a: int, b: int| 0 <= a < b < rest.len() implies before(
                #[trigger] rest[a].0,
                #[trigger] rest[b].0,
            ) by {
                assert(before(s[a + 1].0, s[b + 1].0));
            }
        }
        lemma_lookup_index(rest, j - 1);
    }
}

/// A value that is found stands with its name somewhere in the sequence.
pub proof fn lemma_lookup_found(s: Seq<Pair>, name: Seq<char>)
    requires
        lookup(s, name) is Some,
    ensures
        exists|j: int| 0 <= j < s.len() && #[trigger] s[j] == (name, lookup(s, name)->0),
    decreases s.len(),
{
    if s[0].0 == name {
        assert(s[0] == (name, lookup(s, name)->0));
    } else {
        let rest = s.drop_first();
        lemma_lookup_found(rest, name);
        let j = choose|j: int| 0 <= j < rest.len() && #[trigger] rest[j] == (name, lookup(rest, name)->0);
        assert(s[j + 1] == (name, lookup(s, name)->0));
    }
}

/// A name that stands nowhere in the sequence finds nothing.
pub proof fn lemma_lookup_missing(s: Seq<Pair>, name: Seq<char>)
    requires
        forall|j: int| 0 <= j < s.len() ==> (#[trigger] s[j]).0 != name,
    ensures
        lookup(s, name) is None,
    decreases s.len(),
{
    if s.len() > 0 {
        let rest = s.drop_first();
        assert forall|j: int| 0 <= j < rest.len() implies (#[trigger] rest[j]).0 != name by {
            assert(rest[j] == s[j + 1]);
        }
        lemma_lookup_missing(rest, name);
    }
}

/// A name that finds nothing in an ascending sequence stands nowhere in it.
proof fn lemma_none_means_missing(s: Seq<Pair>, name: Seq<char>)
    requires
        ascending(s),
        lookup(s, name) is None,
    ensures
        forall|j: int| 0 <= j < s.len() ==> (#[trigger] s[j]).0 != name,
{
    assert forall|j: int| 0 <= j < s.len() implies (#[trigger] s[j]).0 != name by {
        if s[j].0 == name {
            lemma_lookup_index(s, j);
        }
    }
}

/// Putting a pair at its place in an ascending sequence, in place of the
/// pair with the same name where there is one, keeps the sequence ascending
/// and changes what this one name finds, and nothing else.
proof fn lemma_put(s: Seq<Pair>, t: Seq<Pair>, i: int, pair: Pair)
    requires
        ascending(s),
        0 <= i <= s.len(),
        forall|j: int| 0 <= j < i ==> before((#[trigger] s[j]).0, pair.0),
        i < s.len() ==> !before(s[i].0, pair.0),
        t == if i < s.len() && s[i].0 == pair.0 {
            s.update(i, pair)
        } else {
            s.insert(i, pair)
        },
    ensures
        ascending(t),
        forall|name: Seq<char>| #[trigger]
            lookup(t, name) == if name == pair.0 {
                Some(pair.1)
            } else {
                lookup(s, name)
            },
{
    let replace = i < s.len() && s[i].0 == pair.0;
    // Where each pair of `t` comes from in `s`.
    let from = |j: int| if replace || j < i { j } else { j - 1 };
    assert forall|j: int| 0 <= j < t.len() && j != i implies #[trigger] t[j] == s[from(j)] by {}
    assert(t[i] == pair);
    assert forall|j: int| i < j < t.len() implies before(pair.0, (#[trigger] t[j]).0) by {
        let first = if replace { i + 1 } else { i };
        if !replace {
            lemma_before_irreflexive(pair.0, 0);
            if !before(pair.0, s[i].0) {
                lemma_before_total(s[i].0, pair.0, 0);
            }
        }
        if from(j) > i {
            assert(before(s[i].0, s[from(j)].0));
            if !replace {
                lemma_before_transitive(pair.0, s[i].0, s[from(j)].0, 0);
            }
        }
    }
    assert forall|a: int, b: int| 0 <= a < b < t.len() implies before(
        #[trigger] t[a].0,
        #[trigger] t[b].0,
    ) by {
        if a == i {
        } else if b == i {
            assert(before(s[a].0, pair.0));
        } else {
            assert(before(s[from(a)].0, s[from(b)].0));
        }
    }
    assert forall|name: Seq<char>| #[trigger]
        lookup(t, name) == if name == pair.0 {
            Some(pair.1)
        } else {
            lookup(s, name)
        } by {
        if name == pair.0 {
            lemma_lookup_index(t, i);
        } else if lookup(s, name) is Some {
            lemma_lookup_found(s, name);
            let j = choose|j: int| 0 <= j < s.len() && #[trigger] s[j] == (name, lookup(s, name)->0);
            let to = if replace || j < i { j } else { j + 1 };
            assert(t[to] == s[j]);
            lemma_lookup_index(t, to);
        } else {
            lemma_none_means_missing(s, name);
            assert forall|j: int| 0 <= j < t.len() implies (#[trigger] t[j]).0 != name by {
                if j != i {
                    assert(t[j] == s[from(j)]);
                }
            }
            lemma_lookup_missing(t, name);
        }
    }
}

/// Two ascending sequences that are the same mapping are the same sequence.
pub proof fn lemma_same_map_same_order(a: Seq<Pair>, b: Seq<Pair>)
    requires
        ascending(a),
        ascending(b),
        as_map(a) == as_map(b),
    ensures
        a == b,
{
    assert forall|name: Seq<char>| #[trigger] lookup(a, name) == lookup(b, name) by {
        assert(as_map(a).dom().contains(name) <==> lookup(a, name) is Some);
        assert(as_map(b).dom().contains(name) <==> lookup(b, name) is Some);
        if lookup(a, name) is Some {
            assert(as_map(a)[name] == lookup(a, name)->0);
            assert(as_map(b)[name] == lookup(b, name)->0);
        }
    }
    lemma_same_mapping_same_order(a, b);
}

/// Two ascending sequences in which every name finds the same are the same
/// sequence: the order in which a mapping was filled leaves no trace.
pub proof fn lemma_same_mapping_same_order(a: Seq<Pair>, b: Seq<Pair>)
    requires
        ascending(a),
        ascending(b),
        forall|name: Seq<char>| #[trigger] lookup(a, name) == lookup(b, name),
    ensures
        a == b,
    decreases a.len(),
{
    if a.len() == 0 {
        if b.len() > 0 {
            lemma_lookup_index(b, 0);
            assert(lookup(a, b[0].0) == lookup(b, b[0].0));
        }
        assert(a =~= b);
    } else {
        lemma_lookup_index(a, 0);
        assert(lookup(a, a[0].0) == lookup(b, a[0].0));
        lemma_lookup_found(b, a[0].0);
        let j = choose|j: int| 0 <= j < b.len() && #[trigger] b[j] == (a[0].0, lookup(b, a[0].0)->0);
        lemma_lookup_index(b, 0);
        assert(lookup(a, b[0].0) == lookup(b, b[0].0));
        lemma_lookup_found(a, b[0].0);
        let i = choose|i: int| 0 <= i < a.len() && #[trigger] a[i] == (b[0].0, lookup(a, b[0].0)->0);
        if j > 0 {
            assert(before(b[0].0, b[j].0));
            lemma_before_irreflexive(a[0].0, 0);
            if i > 0 {
                assert(before(a[0].0, a[i].0));
                lemma_before_transitive(a[0].0, b[0].0, a[0].0, 0);
            }
        }
        assert(a[0] == b[0]);
        let ra = a.drop_first();
        let rb = b.drop_first();
        assert(ascending(ra)) by {
            assert forall|x: int, y: int| 0 <= x < y < ra.len() implies before(
                #[trigger] ra[x].0,
                #[trigger] ra[y].0,
            ) by {
                assert(before(a[x + 1].0, a[y + 1].0));
            }
        }
        assert(ascending(rb)) by {
            assert forall|x: int, y: int| 0 <= x < y < rb.len() implies before(
                #[trigger] rb[x].0,
                #[trigger] rb[y].0,
            ) by {
                assert(before(b[x + 1].0, b[y + 1].0));
            }
        }
        assert forall|name: Seq<char>| #[trigger] lookup(ra, name) == lookup(rb, name) by {
            if name == a[0].0 {
                lemma_before_irreflexive(name, 0);
                assert forall|x: int| 0 <= x < ra.len() implies (#[trigger] ra[x]).0 != name by {
                    assert(before(a[0].0, a[x + 1].0));
                }
                assert forall|x: int| 0 <= x < rb.len() implies (#[trigger] rb[x]).0 != name by {
                    assert(before(b[0].0, b[x + 1].0));
                }
                lemma_lookup_missing(ra, name);
                lemma_lookup_missing(rb, name);
            } else {
                assert(lookup(a, name) == lookup(b, name));
            }
        }
        lemma_same_mapping_same_order(ra, rb);
        assert(a =~= seq![a[0]] + ra);
        assert(b =~= seq![b[0]] + rb);
    }
}

/// A mapping from option names to values.
#[derive(Debug, PartialEq, Eq)]
pub struct Options {
    pairs: Vec<(String, String)>,
}

impl Clone for Options {
    fn clone(&self) -> (copy: Self)
        ensures
            copy@ == self@,
    {
        proof {
            use_type_invariant(self);
        }
        let mut pairs: Vec<(String, String)> = Vec::new();
        let mut i: usize = 0;
        while i < self.pairs.len()
            invariant
                i <= self.pairs.len(),
                pair_views(pairs@) == self@.take(i as int),
            decreases self.pairs.len() - i,
        {
            let ghost before = pairs@;
            let pair = (self.pairs[i].0.clone(), self.pairs[i].1.clone());
            pairs.push(pair);
            assert(pair_views(pairs@) =~= pair_views(before).push(self@[i as int]));
            assert(self@.take(i + 1) =~= self@.take(i as int).push(self@[i as int]));
            i += 1;
        }
        assert(self@.take(self.pairs.len() as int) =~= self@);
        Options { pairs }
    }
}

impl View for Options {
    type V = Seq<Pair>;

    closed spec fn view(&self) -> Seq<Pair> {
        pair_views(self.pairs@)
    }
}

impl Options {
    #[verifier::type_invariant]
    spec fn in_order(self) -> bool {
        ascending(self@)
    }

    /// The mapping without any name.
    pub fn new() -> (options: Options)
        ensures
            options@ == Seq::<Pair>::empty(),
    {
        let options = Options { pairs: Vec::new() };
        assert(options@ =~= Seq::<Pair>::empty());
        options
    }

    /// The number of names. The names of every mapping stand in dictionary
    /// order.
    pub fn len(&self) -> (n: usize)
        ensures
            n == self@.len(),
            ascending(self@),
    {
        proof {
            use_type_invariant(self);
        }
        self.pairs.len()
    }

    /// The name at place `i`, counting in dictionary order from 0.
    pub fn name(&self, i: usize) -> (name: &String)
        requires
            i < self@.len(),
        ensures
            name@ == self@[i as int].0,
    {
        &self.pairs[i].0
    }

    /// The value at place `i`, counting in dictionary order of the names
    /// from 0.
    pub fn value(&self, i: usize) -> (value: &String)
        requires
            i < self@.len(),
        ensures
            value@ == self@[i as int].1,
    {
        &self.pairs[i].1
    }

    /// The value that stands with `name`.
    pub fn get(&self, name: &str) -> (value: Option<&String>)
        ensures
            match value {
                Some(v) => lookup(self@, name@) == Some(v@),
                None => lookup(self@, name@) is None,
            },
    {
        proof {
            use_type_invariant(self);
        }
        let mut i: usize = 0;
        while i < self.pairs.len()
            invariant
                i <= self.pairs.len(),
                ascending(self@),
                forall|j: int| 0 <= j < i ==> (#[trigger] self@[j]).0 != name@,
            decreases self.pairs.len() - i,
        {
            if same_text(self.pairs[i].0.as_str(), name) {
                proof {
                    lemma_lookup_index(self@, i as int);
                }
                return Some(&self.pairs[i].1);
            }
            i += 1;
        }
        proof {
            lemma_lookup_missing(self@, name@);
        }
        None
    }

    /// Lets `name` stand with `value`, in place of the value that it stood
    /// with before, if any. What the other names stand with stays.
    pub fn insert(&mut self, name: String, value: String)
        ensures
            ascending(final(self)@),
            forall|other: Seq<char>| #[trigger]
                lookup(final(self)@, other) == if other == name@ {
                    Some(value@)
                } else {
                    lookup(old(self)@, other)
                },
            as_map(final(self)@) == as_map(old(self)@).insert(name@, value@),
    {
        proof {
            use_type_invariant(&*self);
        }
        let ghost s = self@;
        let ghost pair = (name@, value@);
        let mut pairs: Vec<(String, String)> = Vec::new();
        assert(pair_views(pairs@) =~= Seq::<Pair>::empty());
        std::mem::swap(&mut pairs, &mut self.pairs);
        let mut i: usize = 0;
        while i < pairs.len()
            invariant
                i <= pairs.len(),
                pair_views(pairs@) == s,
                forall|j: int| 0 <= j < i ==> before((#[trigger] s[j]).0, name@),
            ensures
                i <= pairs.len(),
                forall|j: int| 0 <= j < i ==> before((#[trigger] s[j]).0, name@),
                i < pairs.len() ==> !before(s[i as int].0, name@),
            decreases pairs.len() - i,
        {
            if !is_before(pairs[i].0.as_str(), name.as_str()) {
                break;
            }
            i += 1;
        }
        if i < pairs.len() && same_text(pairs[i].0.as_str(), name.as_str()) {
            proof {
                lemma_put(s, s.update(i as int, pair), i as int, pair);
                assert(pair_views(pairs@.update(i as int, (name, value))) =~= s.update(
                    i as int,
                    pair,
                ));
            }
            pairs.set(i, (name, value));
        } else {
            proof {
                lemma_put(s, s.insert(i as int, pair), i as int, pair);
                assert(pair_views(pairs@.insert(i as int, (name, value))) =~= s.insert(
                    i as int,
                    pair,
                ));
            }
            pairs.insert(i, (name, value));
        }
        self.pairs = pairs;
        assert(as_map(self@) =~= as_map(s).insert(name@, value@));
    }
}

} // verus!
