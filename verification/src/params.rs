use crate::util::text::{
    lemma_precedes_irreflexive, lemma_precedes_total, lemma_precedes_transitive, precedes,
    text_eq, text_lt,
};
use vstd::prelude::*;
use vstd::string::*;

verus! {

/// Whether the names in `pairs` stand in strictly rising order, so that no
/// name occurs twice.
pub open spec fn strictly_ordered(pairs: Seq<(Seq<char>, Seq<char>)>) -> bool {
    forall|i: int, j: int|
        0 <= i < j < pairs.len() ==> precedes((#[trigger] pairs[i]).0, (#[trigger] pairs[j]).0)
}

/// The value that `pairs` give to `name`: that of the first pair so named.
pub open spec fn value_of(pairs: Seq<(Seq<char>, Seq<char>)>, name: Seq<char>) -> Option<
    Seq<char>,
>
    decreases pairs.len(),
{
    if pairs.len() == 0 {
        None
    } else if pairs[0].0 == name {
        Some(pairs[0].1)
    } else {
        value_of(pairs.skip(1), name)
    }
}

/// How many pairs at the front of `pairs` have a name that precedes `name`.
pub open spec fn rank(pairs: Seq<(Seq<char>, Seq<char>)>, name: Seq<char>) -> int
    decreases pairs.len(),
{
    if pairs.len() > 0 && precedes(pairs[0].0, name) {
        1 + rank(pairs.skip(1), name)
    } else {
        0
    }
}

/// `pairs` with `name` set to `value`: in place of the pair so named where
/// there is one, else put in where the order asks for it.
pub open spec fn put(pairs: Seq<(Seq<char>, Seq<char>)>, name: Seq<char>, value: Seq<char>) -> Seq<
    (Seq<char>, Seq<char>),
> {
    let at = rank(pairs, name);
    if at < pairs.len() && pairs[at].0 == name {
        pairs.update(at, (name, value))
    } else {
        pairs.insert(at, (name, value))
    }
}

/// `rank` stops at the first pair whose name does not precede `name`.
pub proof fn lemma_rank(pairs: Seq<(Seq<char>, Seq<char>)>, name: Seq<char>)
    ensures
        0 <= rank(pairs, name) <= pairs.len(),
        forall|i: int| 0 <= i < rank(pairs, name) ==> precedes((#[trigger] pairs[i]).0, name),
        rank(pairs, name) < pairs.len() ==> !precedes(pairs[rank(pairs, name)].0, name),
    decreases pairs.len(),
{
    if pairs.len() > 0 && precedes(pairs[0].0, name) {
        let rest = pairs.skip(1);
        lemma_rank(rest, name);
        assert forall|i: int| 0 <= i < rank(pairs, name) implies precedes(
            (#[trigger] pairs[i]).0,
            name,
        ) by {
            if i > 0 {
                assert(pairs[i] == rest[i - 1]);
            }
        }
        if rank(pairs, name) < pairs.len() {
            assert(pairs[rank(pairs, name)] == rest[rank(rest, name)]);
        }
    }
}

/// Setting a name keeps the order.
pub proof fn lemma_put_ordered(
    pairs: Seq<(Seq<char>, Seq<char>)>,
    name: Seq<char>,
    value: Seq<char>,
)
    requires
        strictly_ordered(pairs),
    ensures
        strictly_ordered(put(pairs, name, value)),
{
    let at = rank(pairs, name);
    let after = put(pairs, name, value);
    lemma_rank(pairs, name);
    assert forall|i: int, j: int| 0 <= i < j < after.len() implies precedes(
        (#[trigger] after[i]).0,
        (#[trigger] after[j]).0,
    ) by {
        if at < pairs.len() && pairs[at].0 == name {
            assert(precedes(pairs[i].0, pairs[j].0));
        } else {
            let oi = if i < at {
                i
            } else {
                i - 1
            };
            let oj = if j < at {
                j
            } else {
                j - 1
            };
            if i == at {
                // the new pair against a later one
                if at < pairs.len() {
                    lemma_precedes_total(pairs[at].0, name);
                    if oj > at {
                        assert(precedes(pairs[at].0, pairs[oj].0));
                        lemma_precedes_transitive(name, pairs[at].0, pairs[oj].0);
                    }
                }
            } else if j == at {
                assert(precedes(pairs[oi].0, name));
            } else {
                assert(precedes(pairs[oi].0, pairs[oj].0));
            }
        }
    }
}

/// In ordered pairs every pair is the one that gives its name its value.
pub proof fn lemma_value_at(pairs: Seq<(Seq<char>, Seq<char>)>, at: int)
    requires
        strictly_ordered(pairs),
        0 <= at < pairs.len(),
    ensures
        value_of(pairs, pairs[at].0) == Some(pairs[at].1),
    decreases pairs.len(),
{
    if at > 0 {
        assert(precedes(pairs[0].0, pairs[at].0));
        lemma_precedes_irreflexive(pairs[0].0);
        lemma_ordered_tail(pairs);
        assert(pairs.skip(1)[at - 1] == pairs[at]);
        lemma_value_at(pairs.skip(1), at - 1);
    }
}

/// What follows the first of ordered pairs is ordered.
pub proof fn lemma_ordered_tail(pairs: Seq<(Seq<char>, Seq<char>)>)
    requires
        strictly_ordered(pairs),
        pairs.len() > 0,
    ensures
        strictly_ordered(pairs.skip(1)),
{
    assert forall|i: int, j: int| 0 <= i < j < pairs.skip(1).len() implies precedes(
        (#[trigger] pairs.skip(1)[i]).0,
        (#[trigger] pairs.skip(1)[j]).0,
    ) by {
        assert(pairs.skip(1)[i] == pairs[i + 1]);
        assert(pairs.skip(1)[j] == pairs[j + 1]);
    }
}

/// A name has a value exactly if some pair has that name.
pub proof fn lemma_value_of(pairs: Seq<(Seq<char>, Seq<char>)>, name: Seq<char>)
    ensures
        value_of(pairs, name) is Some ==> exists|at: int|
            0 <= at < pairs.len() && #[trigger] pairs[at] == (name, value_of(pairs, name)->Some_0),
        value_of(pairs, name) is None ==> forall|at: int|
            0 <= at < pairs.len() ==> (#[trigger] pairs[at]).0 != name,
    decreases pairs.len(),
{
    if pairs.len() > 0 {
        if pairs[0].0 == name {
            assert(pairs[0] == (name, value_of(pairs, name)->Some_0));
        } else {
            lemma_value_of(pairs.skip(1), name);
            if value_of(pairs, name) is Some {
                let at = choose|at: int|
                    0 <= at < pairs.skip(1).len() && #[trigger] pairs.skip(1)[at] == (
                        name,
                        value_of(pairs, name)->Some_0,
                    );
                assert(pairs[at + 1] == pairs.skip(1)[at]);
            } else {
                assert forall|at: int| 0 <= at < pairs.len() implies (#[trigger] pairs[at]).0
                    != name by {
                    if at > 0 {
                        assert(pairs.skip(1)[at - 1] == pairs[at]);
                    }
                }
            }
        }
    }
}

/// After a name is set it has the value set, and every other name the
/// value that it had.
pub proof fn lemma_put_value(
    pairs: Seq<(Seq<char>, Seq<char>)>,
    name: Seq<char>,
    value: Seq<char>,
    other: Seq<char>,
)
    requires
        strictly_ordered(pairs),
    ensures
        value_of(put(pairs, name, value), other) == if other == name {
            Some(value)
        } else {
            value_of(pairs, other)
        },
{
    let at = rank(pairs, name);
    let after = put(pairs, name, value);
    let replaces = at < pairs.len() && pairs[at].0 == name;
    lemma_rank(pairs, name);
    lemma_put_ordered(pairs, name, value);
    assert(after[at] == (name, value));
    if other == name {
        lemma_value_at(after, at);
    } else {
        lemma_value_of(pairs, other);
        if value_of(pairs, other) is Some {
            let i = choose|i: int|
                0 <= i < pairs.len() && #[trigger] pairs[i] == (
                    other,
                    value_of(pairs, other)->Some_0,
                );
            let j = if replaces || i < at {
                i
            } else {
                i + 1
            };
            assert(after[j] == pairs[i]);
            lemma_value_at(after, j);
        } else {
            lemma_value_of(after, other);
            if value_of(after, other) is Some {
                let j = choose|j: int|
                    0 <= j < after.len() && #[trigger] after[j] == (
                        other,
                        value_of(after, other)->Some_0,
                    );
                let i = if replaces || j < at {
                    j
                } else {
                    j - 1
                };
                assert(pairs[i] == after[j]);
            }
        }
    }
}

/// Ordered pairs that give every name the same value are the same pairs.
pub proof fn lemma_ordered_pairs_equal(
    a: Seq<(Seq<char>, Seq<char>)>,
    b: Seq<(Seq<char>, Seq<char>)>,
)
    requires
        strictly_ordered(a),
        strictly_ordered(b),
        forall|name: Seq<char>| #[trigger] value_of(a, name) == value_of(b, name),
    ensures
        a == b,
    decreases a.len(),
{
    if a.len() == 0 {
        if b.len() > 0 {
            assert(value_of(a, b[0].0) == value_of(b, b[0].0));
        }
        assert(a =~= b);
    } else if b.len() == 0 {
        assert(value_of(a, a[0].0) == value_of(b, a[0].0));
    } else {
        // each first pair stands somewhere in the other sequence
        assert(value_of(a, a[0].0) == value_of(b, a[0].0));
        assert(value_of(a, b[0].0) == value_of(b, b[0].0));
        lemma_value_of(b, a[0].0);
        lemma_value_of(a, b[0].0);
        let j = choose|j: int| 0 <= j < b.len() && #[trigger] b[j] == (a[0].0, a[0].1);
        let i = choose|i: int| 0 <= i < a.len() && #[trigger] a[i] == (b[0].0, b[0].1);
        if j > 0 {
            assert(precedes(b[0].0, b[j].0));
            lemma_precedes_irreflexive(a[0].0);
            if i > 0 {
                assert(precedes(a[0].0, a[i].0));
                lemma_precedes_transitive(a[0].0, b[0].0, a[0].0);
            }
        }
        assert(a[0] == b[0]);
        lemma_ordered_tail(a);
        lemma_ordered_tail(b);
        assert forall|name: Seq<char>| #[trigger]
            value_of(a.skip(1), name) == value_of(b.skip(1), name) by {
            if name == a[0].0 {
                lemma_precedes_irreflexive(name);
                lemma_value_of(a.skip(1), name);
                lemma_value_of(b.skip(1), name);
                if value_of(a.skip(1), name) is Some {
                    let k = choose|k: int|
                        0 <= k < a.skip(1).len() && #[trigger] a.skip(1)[k] == (
                            name,
                            value_of(a.skip(1), name)->Some_0,
                        );
                    assert(a.skip(1)[k] == a[k + 1]);
                    assert(precedes(a[0].0, a[k + 1].0));
                }
                if value_of(b.skip(1), name) is Some {
                    let k = choose|k: int|
                        0 <= k < b.skip(1).len() && #[trigger] b.skip(1)[k] == (
                            name,
                            value_of(b.skip(1), name)->Some_0,
                        );
                    assert(b.skip(1)[k] == b[k + 1]);
                    assert(precedes(b[0].0, b[k + 1].0));
                }
            } else {
                assert(value_of(a, name) == value_of(b, name));
            }
        }
        lemma_ordered_pairs_equal(a.skip(1), b.skip(1));
        assert(a =~= seq![a[0]] + a.skip(1));
        assert(b =~= seq![b[0]] + b.skip(1));
    }
}

/// The order in which two different names are set makes no difference.
pub proof fn lemma_put_commutes(
    pairs: Seq<(Seq<char>, Seq<char>)>,
    first: (Seq<char>, Seq<char>),
    second: (Seq<char>, Seq<char>),
)
    requires
        strictly_ordered(pairs),
        first.0 != second.0,
    ensures
        put(put(pairs, first.0, first.1), second.0, second.1) == put(
            put(pairs, second.0, second.1),
            first.0,
            first.1,
        ),
{
    let a = put(put(pairs, first.0, first.1), second.0, second.1);
    let b = put(put(pairs, second.0, second.1), first.0, first.1);
    lemma_put_ordered(pairs, first.0, first.1);
    lemma_put_ordered(pairs, second.0, second.1);
    lemma_put_ordered(put(pairs, first.0, first.1), second.0, second.1);
    lemma_put_ordered(put(pairs, second.0, second.1), first.0, first.1);
    assert forall|name: Seq<char>| #[trigger] value_of(a, name) == value_of(b, name) by {
        lemma_put_value(pairs, first.0, first.1, name);
        lemma_put_value(pairs, second.0, second.1, name);
        lemma_put_value(put(pairs, first.0, first.1), second.0, second.1, name);
        lemma_put_value(put(pairs, second.0, second.1), first.0, first.1, name);
    }
    lemma_ordered_pairs_equal(a, b);
}

/// The query of a request: names with their values, each name once, kept in
/// the order of the names whatever the order in which they were set.
pub struct Params {
    entries: Vec<(String, String)>,
}

impl View for Params {
    type V = Seq<(Seq<char>, Seq<char>)>;

    closed spec fn view(&self) -> Seq<(Seq<char>, Seq<char>)> {
        Seq::new(self.entries.len() as nat, |i: int| (self.entries[i].0@, self.entries[i].1@))
    }
}

impl Params {
    #[verifier::type_invariant]
    spec fn ordered(&self) -> bool {
        strictly_ordered(self@)
    }

    /// No names at all.
    pub fn new() -> (r: Params)
        ensures
            r@ == Seq::<(Seq<char>, Seq<char>)>::empty(),
    {
        let r = Params { entries: Vec::new() };
        assert(r@ =~= Seq::<(Seq<char>, Seq<char>)>::empty());
        r
    }

    /// A query of one name.
    pub fn single(name: &str, value: &str) -> (r: Params)
        ensures
            r@ == seq![(name@, value@)],
            strictly_ordered(r@),
    {
        let mut params = Params::new();
        params.insert(name, value);
        assert(params@ =~= seq![(name@, value@)]);
        params
    }

    /// The number of names. The names of any query stand in strictly
    /// rising order.
    pub fn len(&self) -> (r: usize)
        ensures
            r == self@.len(),
            strictly_ordered(self@),
    {
        proof {
            use_type_invariant(self);
        }
        self.entries.len()
    }

    /// The name at a position.
    pub fn name_at(&self, index: usize) -> (r: &str)
        requires
            index < self@.len(),
        ensures
            r@ == self@[index as int].0,
    {
        self.entries[index].0.as_str()
    }

    /// The value at a position.
    pub fn value_at(&self, index: usize) -> (r: &str)
        requires
            index < self@.len(),
        ensures
            r@ == self@[index as int].1,
    {
        self.entries[index].1.as_str()
    }

    /// A copy of the names with their values, in their order.
    pub fn to_vec(&self) -> (r: Vec<(String, String)>)
        ensures
            r.deep_view() == self@,
    {
        let mut pairs: Vec<(String, String)> = Vec::new();
        let mut i: usize = 0;
        while i < self.entries.len()
            invariant
                i <= self.entries.len(),
                pairs.len() == i,
                forall|k: int|
                    0 <= k < i ==> (#[trigger] pairs[k]).0@ == self.entries[k].0@ && pairs[k].1@
                        == self.entries[k].1@,
            decreases self.entries.len() - i,
        {
            pairs.push((self.entries[i].0.clone(), self.entries[i].1.clone()));
            i += 1;
        }
        assert(pairs.deep_view() =~= self@);
        pairs
    }

    /// The value set for `name`.
    pub fn get(&self, name: &str) -> (r: Option<&str>)
        ensures
            match r {
                Some(value) => value_of(self@, name@) == Some(value@),
                None => value_of(self@, name@).is_none(),
            },
    {
        let mut i: usize = 0;
        assert(self@.skip(0) =~= self@);
        while i < self.entries.len()
            invariant
                i <= self.entries.len(),
                value_of(self@, name@) == value_of(self@.skip(i as int), name@),
            decreases self.entries.len() - i,
        {
            assert(self@.skip(i as int)[0] == self@[i as int]);
            assert(self@.skip(i as int).skip(1) =~= self@.skip(i + 1));
            if text_eq(self.entries[i].0.as_str(), name) {
                return Some(self.entries[i].1.as_str());
            }
            i += 1;
        }
        None
    }

    /// Sets `name` to `value`, in place of any value it had.
    pub fn insert(&mut self, name: &str, value: &str)
        ensures
            final(self)@ == put(old(self)@, name@, value@),
            strictly_ordered(final(self)@),
    {
        proof {
            use_type_invariant(&*self);
            lemma_put_ordered(self@, name@, value@);
        }
        let ghost before = self@;
        let mut i: usize = 0;
        assert(before.skip(0) =~= before);
        while i < self.entries.len() && text_lt(self.entries[i].0.as_str(), name)
            invariant
                i <= self.entries.len(),
                before == self@,
                rank(before, name@) == i + rank(before.skip(i as int), name@),
            decreases self.entries.len() - i,
        {
            assert(before.skip(i as int)[0] == before[i as int]);
            assert(before.skip(i as int).skip(1) =~= before.skip(i + 1));
            i += 1;
        }
        proof {
            if i < self.entries.len() {
                assert(before.skip(i as int)[0] == before[i as int]);
            }
            assert(rank(before, name@) == i);
        }
        let pair = (name.to_owned(), value.to_owned());
        if i < self.entries.len() && text_eq(self.entries[i].0.as_str(), name) {
            let mut entries = Vec::new();
            std::mem::swap(&mut entries, &mut self.entries);
            entries.set(i, pair);
            assert(Seq::new(entries.len() as nat, |k: int| (entries[k].0@, entries[k].1@)) =~= put(
                before,
                name@,
                value@,
            ));
            self.entries = entries;
        } else {
            let mut entries = Vec::new();
            std::mem::swap(&mut entries, &mut self.entries);
            entries.insert(i, pair);
            assert(Seq::new(entries.len() as nat, |k: int| (entries[k].0@, entries[k].1@)) =~= put(
                before,
                name@,
                value@,
            ));
            self.entries = entries;
        }
        assert(self@ =~= put(before, name@, value@));
    }

    /// Whether two queries set the same names to the same values.
    pub fn same(&self, other: &Params) -> (r: bool)
        ensures
            r == (self@ == other@),
    {
        if self.entries.len() != other.entries.len() {
            assert(self@.len() != other@.len());
            return false;
        }
        let mut i: usize = 0;
        while i < self.entries.len()
            invariant
                i <= self.entries.len(),
                self.entries.len() == other.entries.len(),
                forall|j: int| 0 <= j < i ==> self@[j] == other@[j],
            decreases self.entries.len() - i,
        {
            if !text_eq(self.entries[i].0.as_str(), other.entries[i].0.as_str()) || !text_eq(
                self.entries[i].1.as_str(),
                other.entries[i].1.as_str(),
            ) {
                assert(self@[i as int] != other@[i as int]);
                return false;
            }
            i += 1;
        }
        assert(self@ =~= other@);
        true
    }
}

} // verus!
