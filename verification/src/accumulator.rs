//! The parameters that a login collects on its way through the redirects.
//!
//! An accumulator maps parameter names to values. Writing a name that is
//! already there replaces its value, so of two writes the later one wins.

use vstd::prelude::*;

verus! {

/// A list of name/value pairs, each string taken as its characters.
pub open spec fn pairs_view(pairs: Seq<(String, String)>) -> Seq<(Seq<char>, Seq<char>)> {
    Seq::new(pairs.len(), |i: int| (pairs[i].0@, pairs[i].1@))
}

/// The map `acc` after the pairs were written into it one after the other.
pub open spec fn merge_pairs(
    acc: Map<Seq<char>, Seq<char>>,
    pairs: Seq<(Seq<char>, Seq<char>)>,
) -> Map<Seq<char>, Seq<char>>
    decreases pairs.len(),
{
    if pairs.len() == 0 {
        acc
    } else {
        merge_pairs(acc, pairs.drop_last()).insert(pairs.last().0, pairs.last().1)
    }
}

/// Whether some pair of the list has the given name.
pub open spec fn has_name(pairs: Seq<(Seq<char>, Seq<char>)>, name: Seq<char>) -> bool {
    exists|i: int| 0 <= i < pairs.len() && (#[trigger] pairs[i]).0 == name
}

/// Whether no two pairs of the list share a name.
pub open spec fn distinct_names(pairs: Seq<(Seq<char>, Seq<char>)>) -> bool {
    forall|i: int, j: int|
        0 <= i < j < pairs.len() ==> (#[trigger] pairs[i]).0 != (#[trigger] pairs[j]).0
}

/// What a walk has accumulated after it has visited every hop of a chain,
/// each hop given by the query pairs of its URL.
pub open spec fn accumulate(hops: Seq<Seq<(Seq<char>, Seq<char>)>>) -> Map<Seq<char>, Seq<char>>
    decreases hops.len(),
{
    if hops.len() == 0 {
        Map::empty()
    } else {
        merge_pairs(accumulate(hops.drop_last()), hops.last())
    }
}

/// Whether position (`h1`, `i1`) of a chain comes after position (`h0`, `i0`).
pub open spec fn later(h0: int, i0: int, h1: int, i1: int) -> bool {
    h1 > h0 || (h1 == h0 && i1 > i0)
}

/// Writing one more pair is one insertion.
pub proof fn lemma_merge_push(
    acc: Map<Seq<char>, Seq<char>>,
    pairs: Seq<(Seq<char>, Seq<char>)>,
    pair: (Seq<char>, Seq<char>),
)
    ensures
        merge_pairs(acc, pairs.push(pair)) == merge_pairs(acc, pairs).insert(pair.0, pair.1),
{
    assert(pairs.push(pair).drop_last() =~= pairs);
}

/// A name is in the merged map exactly if it was in the map before or some
/// pair has it.
pub proof fn lemma_merge_domain(
    acc: Map<Seq<char>, Seq<char>>,
    pairs: Seq<(Seq<char>, Seq<char>)>,
    name: Seq<char>,
)
    ensures
        merge_pairs(acc, pairs).contains_key(name) <==> acc.contains_key(name) || has_name(
            pairs,
            name,
        ),
    decreases pairs.len(),
{
    if pairs.len() > 0 {
        let front = pairs.drop_last();
        lemma_merge_domain(acc, front, name);
        if has_name(pairs, name) {
            let i = choose|i: int| 0 <= i < pairs.len() && (#[trigger] pairs[i]).0 == name;
            if i < pairs.len() - 1 {
                assert(front[i].0 == name);
            }
        }
        if has_name(front, name) {
            let i = choose|i: int| 0 <= i < front.len() && (#[trigger] front[i]).0 == name;
            assert(pairs[i].0 == name);
        }
        if pairs.last().0 == name {
            assert(pairs[pairs.len() - 1].0 == name);
        }
    }
}

/// A name that no pair has keeps the value it had before.
pub proof fn lemma_merge_untouched(
    acc: Map<Seq<char>, Seq<char>>,
    pairs: Seq<(Seq<char>, Seq<char>)>,
    name: Seq<char>,
)
    requires
        !has_name(pairs, name),
    ensures
        merge_pairs(acc, pairs).contains_key(name) == acc.contains_key(name),
        merge_pairs(acc, pairs)[name] == acc[name],
    decreases pairs.len(),
{
    if pairs.len() > 0 {
        let front = pairs.drop_last();
        assert(pairs[pairs.len() - 1].0 != name);
        assert(!has_name(front, name)) by {
            if has_name(front, name) {
                let i = choose|i: int| 0 <= i < front.len() && (#[trigger] front[i]).0 == name;
                assert(pairs[i].0 == name);
            }
        }
        lemma_merge_untouched(acc, front, name);
    }
}

/// Of the pairs with one name the last one decides: the merged map holds
/// the value of a pair after which no pair has the same name.
pub proof fn lemma_merge_last_wins(
    acc: Map<Seq<char>, Seq<char>>,
    pairs: Seq<(Seq<char>, Seq<char>)>,
    i: int,
)
    requires
        0 <= i < pairs.len(),
        forall|j: int| i < j < pairs.len() ==> (#[trigger] pairs[j]).0 != pairs[i].0,
    ensures
        merge_pairs(acc, pairs).contains_key(pairs[i].0),
        merge_pairs(acc, pairs)[pairs[i].0] == pairs[i].1,
    decreases pairs.len(),
{
    if i < pairs.len() - 1 {
        let front = pairs.drop_last();
        assert(pairs[pairs.len() - 1].0 != pairs[i].0);
        assert forall|j: int| i < j < front.len() implies (#[trigger] front[j]).0 != front[i].0 by {
            assert(pairs[j].0 != pairs[i].0);
        }
        lemma_merge_last_wins(acc, front, i);
    }
}

/// Writing two lists one after the other is writing their concatenation.
pub proof fn lemma_merge_concat(
    acc: Map<Seq<char>, Seq<char>>,
    first: Seq<(Seq<char>, Seq<char>)>,
    second: Seq<(Seq<char>, Seq<char>)>,
)
    ensures
        merge_pairs(merge_pairs(acc, first), second) == merge_pairs(acc, first + second),
    decreases second.len(),
{
    if second.len() == 0 {
        assert(first + second =~= first);
    } else {
        lemma_merge_concat(acc, first, second.drop_last());
        assert((first + second).drop_last() =~= first + second.drop_last());
        assert((first + second).last() == second.last());
    }
}

/// Replacing the value of the last pair with a name is one insertion.
proof fn lemma_merge_update(
    acc: Map<Seq<char>, Seq<char>>,
    pairs: Seq<(Seq<char>, Seq<char>)>,
    i: int,
    value: Seq<char>,
)
    requires
        0 <= i < pairs.len(),
        forall|j: int| i < j < pairs.len() ==> (#[trigger] pairs[j]).0 != pairs[i].0,
    ensures
        merge_pairs(acc, pairs.update(i, (pairs[i].0, value))) == merge_pairs(acc, pairs).insert(
            pairs[i].0,
            value,
        ),
    decreases pairs.len(),
{
    let name = pairs[i].0;
    let changed = pairs.update(i, (name, value));
    let front = pairs.drop_last();
    if i == pairs.len() - 1 {
        assert(changed.drop_last() =~= front);
        assert(merge_pairs(acc, changed) =~= merge_pairs(acc, pairs).insert(name, value));
    } else {
        assert(pairs[pairs.len() - 1].0 != name);
        assert forall|j: int| i < j < front.len() implies (#[trigger] front[j]).0 != front[i].0 by {
            assert(pairs[j].0 != pairs[i].0);
        }
        lemma_merge_update(acc, front, i, value);
        assert(changed.drop_last() =~= front.update(i, (name, value)));
        assert(changed.last() == pairs.last());
        assert(merge_pairs(acc, changed) =~= merge_pairs(acc, pairs).insert(name, value));
    }
}

/// The accumulated map holds a name exactly if some hop of the chain has a
/// pair with it: it is the union of all hops' parameters.
pub proof fn lemma_accumulate_union(hops: Seq<Seq<(Seq<char>, Seq<char>)>>, name: Seq<char>)
    ensures
        accumulate(hops).contains_key(name) <==> exists|h: int|
            0 <= h < hops.len() && has_name(#[trigger] hops[h], name),
    decreases hops.len(),
{
    if hops.len() > 0 {
        let front = hops.drop_last();
        lemma_accumulate_union(front, name);
        lemma_merge_domain(accumulate(front), hops.last(), name);
        if exists|h: int| 0 <= h < hops.len() && has_name(#[trigger] hops[h], name) {
            let h = choose|h: int| 0 <= h < hops.len() && has_name(#[trigger] hops[h], name);
            if h < hops.len() - 1 {
                assert(has_name(front[h], name));
            }
        }
        if exists|h: int| 0 <= h < front.len() && has_name(#[trigger] front[h], name) {
            let h = choose|h: int| 0 <= h < front.len() && has_name(#[trigger] front[h], name);
            assert(has_name(hops[h], name));
        }
        if has_name(hops.last(), name) {
            assert(has_name(hops[hops.len() - 1], name));
        }
    }
}

/// Visiting one more hop writes its pairs into what the hops before it have
/// accumulated.
pub proof fn lemma_accumulate_step(
    hops: Seq<Seq<(Seq<char>, Seq<char>)>>,
    next: Seq<(Seq<char>, Seq<char>)>,
)
    ensures
        accumulate(hops.push(next)) == merge_pairs(accumulate(hops), next),
{
    assert(hops.push(next).drop_last() =~= hops);
}

/// A later parameter overrides an earlier one with the same name: the
/// accumulated map holds the value of a pair after which, in the same hop
/// and in all later hops, no pair has the same name.
pub proof fn lemma_accumulate_override(hops: Seq<Seq<(Seq<char>, Seq<char>)>>, h: int, i: int)
    requires
        0 <= h < hops.len(),
        0 <= i < hops[h].len(),
        forall|h1: int, i1: int|
            0 <= h1 < hops.len() && 0 <= i1 < hops[h1].len() && later(h, i, h1, i1)
                ==> (#[trigger] hops[h1][i1]).0 != hops[h][i].0,
    ensures
        accumulate(hops).contains_key(hops[h][i].0),
        accumulate(hops)[hops[h][i].0] == hops[h][i].1,
    decreases hops.len(),
{
    let name = hops[h][i].0;
    let front = hops.drop_last();
    let last = hops.len() - 1;
    if h == last {
        assert forall|j: int| i < j < hops[h].len() implies (#[trigger] hops[h][j]).0
            != hops[h][i].0 by {
            assert(later(h, i, h, j));
        }
        lemma_merge_last_wins(accumulate(front), hops[h], i);
    } else {
        assert forall|h1: int, i1: int|
            0 <= h1 < front.len() && 0 <= i1 < front[h1].len() && later(h, i, h1, i1) implies (
        #[trigger] front[h1][i1]).0 != front[h][i].0 by {
            assert(hops[h1][i1].0 != hops[h][i].0);
        }
        lemma_accumulate_override(front, h, i);
        assert(!has_name(hops[last], name)) by {
            if has_name(hops[last], name) {
                let j = choose|j: int|
                    0 <= j < hops[last].len() && (#[trigger] hops[last][j]).0 == name;
                assert(later(h, i, last, j));
            }
        }
        lemma_merge_untouched(accumulate(front), hops[last], name);
    }
}

/// What the hops have accumulated is what writing all their pairs in order
/// into an empty map gives.
pub proof fn lemma_accumulate_flat(hops: Seq<Seq<(Seq<char>, Seq<char>)>>)
    ensures
        accumulate(hops) == merge_pairs(Map::empty(), hops.flatten()),
    decreases hops.len(),
{
    if hops.len() == 0 {
        assert(hops.flatten() =~= Seq::empty());
    } else {
        let front = hops.drop_last();
        lemma_accumulate_flat(front);
        lemma_merge_concat(Map::empty(), front.flatten(), hops.last());
        assert(hops =~= front.push(hops.last()));
        hops.drop_last().lemma_flatten_push(hops.last());
    }
}

/// The parameters collected so far, each name with one value.
#[derive(Debug)]
pub struct Accumulator {
    entries: Vec<(String, String)>,
}

impl View for Accumulator {
    type V = Map<Seq<char>, Seq<char>>;

    closed spec fn view(&self) -> Map<Seq<char>, Seq<char>> {
        merge_pairs(Map::empty(), pairs_view(self.entries@))
    }
}

impl Accumulator {
    #[verifier::type_invariant]
    closed spec fn names_are_distinct(self) -> bool {
        distinct_names(pairs_view(self.entries@))
    }

    /// An accumulator without parameters.
    pub fn new() -> (acc: Self)
        ensures
            acc@ == Map::<Seq<char>, Seq<char>>::empty(),
    {
        let acc = Accumulator { entries: Vec::new() };
        assert(pairs_view(acc.entries@) =~= Seq::empty());
        acc
    }

    /// Position of the pair with the given name, if there is one.
    fn position(&self, name: &String) -> (r: Option<usize>)
        ensures
            match r {
                Some(i) => i < self.entries@.len() && self.entries@[i as int].0@ == name@,
                None => !has_name(pairs_view(self.entries@), name@),
            },
    {
        let mut i: usize = 0;
        while i < self.entries.len()
            invariant
                i <= self.entries@.len(),
                forall|j: int| 0 <= j < i ==> self.entries@[j].0@ != name@,
            decreases self.entries@.len() - i,
        {
            if self.entries[i].0 == *name {
                return Some(i);
            }
            i += 1;
        }
        None
    }

    /// Writes a parameter: a value that the name already had is replaced.
    pub fn insert(&mut self, name: String, value: String)
        ensures
            final(self)@ == old(self)@.insert(name@, value@),
    {
        proof {
            use_type_invariant(&*self);
        }
        let ghost before = pairs_view(self.entries@);
        let found = self.position(&name);
        let mut entries: Vec<(String, String)> = Vec::new();
        core::mem::swap(&mut entries, &mut self.entries);
        match found {
            Some(i) => {
                entries.set(i, (name, value));
                proof {
                    assert(pairs_view(entries@) =~= before.update(i as int, (name@, value@)));
                    lemma_merge_update(Map::empty(), before, i as int, value@);
                }
            },
            None => {
                entries.push((name, value));
                proof {
                    let after = before.push((name@, value@));
                    assert(pairs_view(entries@) =~= after);
                    lemma_merge_push(Map::empty(), before, (name@, value@));
                    assert forall|a: int, b: int| 0 <= a < b < after.len() implies (
                    #[trigger] after[a]).0 != (#[trigger] after[b]).0 by {
                        if b == before.len() {
                            assert(before[a].0 != name@);
                        } else {
                            assert(before[a].0 != before[b].0);
                        }
                    }
                }
            },
        }
        core::mem::swap(&mut entries, &mut self.entries);
    }

    /// Writes a parameter unless the name has a value already.
    pub fn insert_if_absent(&mut self, name: String, value: String)
        ensures
            final(self)@ == if old(self)@.contains_key(name@) {
                old(self)@
            } else {
                old(self)@.insert(name@, value@)
            },
    {
        if !self.contains(name.as_str()) {
            self.insert(name, value);
        }
    }

    /// Whether the name has a value.
    pub fn contains(&self, name: &str) -> (r: bool)
        ensures
            r == self@.contains_key(name@),
    {
        let name = name.to_string();
        proof {
            lemma_merge_domain(Map::empty(), pairs_view(self.entries@), name@);
        }
        match self.position(&name) {
            Some(i) => {
                assert(pairs_view(self.entries@)[i as int].0 == name@);
                true
            },
            None => false,
        }
    }

    /// The value of a name, if it has one.
    pub fn get(&self, name: &str) -> (r: Option<String>)
        ensures
            match r {
                Some(value) => self@.contains_key(name@) && self@[name@] == value@,
                None => !self@.contains_key(name@),
            },
    {
        let name = name.to_string();
        proof {
            use_type_invariant(self);
            lemma_merge_domain(Map::empty(), pairs_view(self.entries@), name@);
        }
        match self.position(&name) {
            Some(i) => {
                proof {
                    let pairs = pairs_view(self.entries@);
                    assert(pairs[i as int].0 == name@);
                    lemma_merge_last_wins(Map::empty(), pairs, i as int);
                }
                Some(self.entries[i].1.clone())
            },
            None => None,
        }
    }

    /// Writes the pairs in their order: of two with the same name the later
    /// one wins, over an earlier pair and over what was there before.
    pub fn absorb(&mut self, pairs: &Vec<(String, String)>)
        ensures
            final(self)@ == merge_pairs(old(self)@, pairs_view(pairs@)),
    {
        let mut i: usize = 0;
        while i < pairs.len()
            invariant
                i <= pairs@.len(),
                self@ == merge_pairs(old(self)@, pairs_view(pairs@).take(i as int)),
            decreases pairs@.len() - i,
        {
            let name = pairs[i].0.clone();
            let value = pairs[i].1.clone();
            self.insert(name, value);
            proof {
                let all = pairs_view(pairs@);
                assert(all.take(i + 1).drop_last() =~= all.take(i as int));
                assert(all.take(i + 1).last() == (name@, value@));
            }
            i += 1;
        }
        assert(pairs_view(pairs@).take(i as int) =~= pairs_view(pairs@));
    }

    /// The parameters as a list in which every name occurs once, ready to be
    /// sent as a form.
    pub fn into_pairs(self) -> (pairs: Vec<(String, String)>)
        ensures
            distinct_names(pairs_view(pairs@)),
            merge_pairs(Map::empty(), pairs_view(pairs@)) == self@,
    {
        proof {
            use_type_invariant(&self);
        }
        self.entries
    }
}

} // verus!
