//! The argument context: the keyed store of strings that a model's host
//! fills before a run and that the model reads while it runs.

use crate::argument::{pairs_of, Argument};
use vstd::hash_map::StringHashMap;
use vstd::prelude::*;

verus! {

/// A store after `pairs` were written into `base` one after the other.
pub open spec fn merged(
    base: Map<Seq<char>, Seq<char>>,
    pairs: Seq<(Seq<char>, Seq<char>)>,
) -> Map<Seq<char>, Seq<char>>
    decreases pairs.len(),
{
    if pairs.len() == 0 {
        base
    } else {
        merged(base, pairs.drop_last()).insert(pairs.last().0, pairs.last().1)
    }
}

/// A key reads back the value of the last pair that wrote it.
pub proof fn lemma_merged_last_write_wins(
    base: Map<Seq<char>, Seq<char>>,
    pairs: Seq<(Seq<char>, Seq<char>)>,
    i: int,
)
    requires
        0 <= i < pairs.len(),
        forall|j: int| i < j < pairs.len() ==> (#[trigger] pairs[j]).0 != pairs[i].0,
    ensures
        merged(base, pairs).contains_key(pairs[i].0),
        merged(base, pairs)[pairs[i].0] == pairs[i].1,
    decreases pairs.len(),
{
    if i < pairs.len() - 1 {
        let front = pairs.drop_last();
        assert(front[i] == pairs[i]);
        assert forall|j: int| i < j < front.len() implies (#[trigger] front[j]).0
            != front[i].0 by {
            assert(front[j] == pairs[j]);
        }
        lemma_merged_last_write_wins(base, front, i);
        assert(pairs.last() == pairs[pairs.len() - 1]);
    }
}

/// A key that no pair wrote reads as it did before, present or absent.
pub proof fn lemma_merged_keeps_other_keys(
    base: Map<Seq<char>, Seq<char>>,
    pairs: Seq<(Seq<char>, Seq<char>)>,
    key: Seq<char>,
)
    requires
        forall|j: int| 0 <= j < pairs.len() ==> (#[trigger] pairs[j]).0 != key,
    ensures
        merged(base, pairs).contains_key(key) == base.contains_key(key),
        base.contains_key(key) ==> merged(base, pairs)[key] == base[key],
    decreases pairs.len(),
{
    if pairs.len() > 0 {
        let front = pairs.drop_last();
        assert forall|j: int| 0 <= j < front.len() implies (#[trigger] front[j]).0 != key by {
            assert(front[j] == pairs[j]);
        }
        lemma_merged_keeps_other_keys(base, front, key);
        assert(pairs.last() == pairs[pairs.len() - 1]);
    }
}

/// Writing never removes: every key of the store before is a key after.
pub proof fn lemma_merged_keeps_keys(
    base: Map<Seq<char>, Seq<char>>,
    pairs: Seq<(Seq<char>, Seq<char>)>,
    key: Seq<char>,
)
    requires
        base.contains_key(key),
    ensures
        merged(base, pairs).contains_key(key),
    decreases pairs.len(),
{
    if pairs.len() > 0 {
        lemma_merged_keeps_keys(base, pairs.drop_last(), key);
    }
}

/// Writing the same pairs a second time changes nothing.
pub proof fn lemma_merged_twice(
    base: Map<Seq<char>, Seq<char>>,
    pairs: Seq<(Seq<char>, Seq<char>)>,
)
    ensures
        merged(merged(base, pairs), pairs) == merged(base, pairs),
{
    let once = merged(base, pairs);
    let twice = merged(once, pairs);
    assert forall|key: Seq<char>| #[trigger] twice.contains_key(key) == once.contains_key(key) && (
    once.contains_key(key) ==> twice[key] == once[key]) by {
        lemma_key_of_merged(once, pairs, key);
        lemma_key_of_merged(base, pairs, key);
    }
    assert(twice =~= once);
}

/// What a key reads after a merge: the value of its last writer among the
/// pairs, or what the store held before where there is no writer.
pub proof fn lemma_key_of_merged(
    base: Map<Seq<char>, Seq<char>>,
    pairs: Seq<(Seq<char>, Seq<char>)>,
    key: Seq<char>,
)
    ensures
        -1 <= last_writer(pairs, key) < pairs.len(),
        last_writer(pairs, key) >= 0 ==> pairs[last_writer(pairs, key)].0 == key,
        last_writer(pairs, key) >= 0 ==> merged(base, pairs).contains_key(key) && merged(
            base,
            pairs,
        )[key] == pairs[last_writer(pairs, key)].1,
        last_writer(pairs, key) < 0 ==> merged(base, pairs).contains_key(key) == base.contains_key(
            key,
        ) && (base.contains_key(key) ==> merged(base, pairs)[key] == base[key]),
    decreases pairs.len(),
{
    if pairs.len() > 0 {
        let front = pairs.drop_last();
        lemma_key_of_merged(base, front, key);
        if pairs.last().0 != key && last_writer(front, key) >= 0 {
            assert(front[last_writer(front, key)] == pairs[last_writer(front, key)]);
        }
    }
}

/// Index of the last pair that writes `key`, or -1 where none does.
pub open spec fn last_writer(pairs: Seq<(Seq<char>, Seq<char>)>, key: Seq<char>) -> int
    decreases pairs.len(),
{
    if pairs.len() == 0 {
        -1
    } else if pairs.last().0 == key {
        pairs.len() - 1
    } else {
        last_writer(pairs.drop_last(), key)
    }
}

/// The arguments of one model, by name.
pub struct ArgumentContext {
    entries: StringHashMap<String>,
}

impl View for ArgumentContext {
    type V = Map<Seq<char>, Seq<char>>;

    closed spec fn view(&self) -> Map<Seq<char>, Seq<char>> {
        self.entries@.map_values(|value: String| value@)
    }
}

impl ArgumentContext {
    /// An empty context.
    pub fn new() -> (context: Self)
        ensures
            context@ == Map::<Seq<char>, Seq<char>>::empty(),
    {
        let context = ArgumentContext { entries: StringHashMap::new() };
        assert(context@ =~= Map::<Seq<char>, Seq<char>>::empty());
        context
    }

    /// The value stored under `name`, if there is one.
    pub fn get(&self, name: &str) -> (value: Option<String>)
        ensures
            match value {
                Some(text) => self@.contains_key(name@) && text@ == self@[name@],
                None => !self@.contains_key(name@),
            },
    {
        match self.entries.get(name) {
            Some(text) => Some(text.clone()),
            None => None,
        }
    }

    /// Stores `value` under `key`, in place of what was there.
    pub fn set(&mut self, key: String, value: String)
        ensures
            final(self)@ == old(self)@.insert(key@, value@),
    {
        self.entries.insert(key, value);
        assert(self@ =~= old(self)@.insert(key@, value@));
    }

    /// Stores every pair, first to last, so that of two pairs with one key
    /// the later one stays.
    pub fn set_many(&mut self, pairs: &[Argument])
        ensures
            final(self)@ == merged(old(self)@, pairs_of(pairs@)),
    {
        let mut i: usize = 0;
        while i < pairs.len()
            invariant
                i <= pairs@.len(),
                self@ == merged(old(self)@, pairs_of(pairs@).take(i as int)),
            decreases pairs@.len() - i,
        {
            let key = pairs[i].key.clone();
            let value = pairs[i].value.clone();
            self.set(key, value);
            proof {
                let done = pairs_of(pairs@).take(i + 1);
                assert(done.drop_last() =~= pairs_of(pairs@).take(i as int));
                assert(done.last() == pairs@[i as int]@);
            }
            i += 1;
        }
        assert(pairs_of(pairs@).take(i as int) =~= pairs_of(pairs@));
    }
}

} // verus!
