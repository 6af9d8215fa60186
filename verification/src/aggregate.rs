//! Gathering what several listings gave, one listing per key.
//!
//! Each listing is drained on its own. What happens when one of them fails
//! is for the caller to say: give up on the whole, or leave that one out and
//! go on.

use crate::value::TableId;
use vstd::prelude::*;

verus! {

/// What to do when the listing of one key fails.
#[derive(Clone, Copy, Debug, PartialEq, Eq, Structural)]
pub enum FailurePolicy {
    /// The whole fetch fails with that failure.
    Abort,
    /// The key is left out and the fetch goes on.
    SkipAndContinue,
}

/// What `outcomes`, one per key and in the order they came, amount to under
/// `policy`: the keys that gave something, each with what it gave, in order;
/// or, under `Abort`, the first failure.
pub open spec fn gathered<K, V, E>(policy: FailurePolicy, outcomes: Seq<(K, Result<V, E>)>) -> Result<
    Seq<(K, V)>,
    E,
>
    decreases outcomes.len(),
{
    if outcomes.len() == 0 {
        Ok(Seq::empty())
    } else {
        match gathered(policy, outcomes.drop_last()) {
            Err(error) => Err(error),
            Ok(entries) => match outcomes.last().1 {
                Ok(value) => Ok(entries.push((outcomes.last().0, value))),
                Err(error) => if policy == FailurePolicy::Abort {
                    Err(error)
                } else {
                    Ok(entries)
                },
            },
        }
    }
}

/// A fetch over several keys in progress: what the keys so far gave.
pub struct Gathering<K, V> {
    policy: FailurePolicy,
    entries: Vec<(K, V)>,
}

/// What a fetch over several keys does after one key.
pub enum GatherStep<K, V, E> {
    /// Go on with the next key, or finish.
    Continue(Gathering<K, V>),
    /// Give up with this failure.
    Failed(E),
}

impl<K, V> Gathering<K, V> {
    /// The policy that the fetch was begun with.
    pub closed spec fn policy(&self) -> FailurePolicy {
        self.policy
    }

    /// What the keys so far gave.
    pub closed spec fn entries(&self) -> Seq<(K, V)> {
        self.entries@
    }

    /// A fetch that has asked for nothing yet.
    pub fn new(policy: FailurePolicy) -> (r: Self)
        ensures
            r.policy() == policy,
            r.entries() == Seq::<(K, V)>::empty(),
    {
        Gathering { policy, entries: Vec::new() }
    }

    /// Takes in what the listing of `key` came to.
    pub fn accept<E>(self, key: K, outcome: Result<V, E>) -> (step: GatherStep<K, V, E>)
        ensures
            match outcome {
                Ok(value) => step matches GatherStep::Continue(next) && next.policy()
                    == self.policy() && next.entries() == self.entries().push((key, value)),
                Err(error) => if self.policy() == FailurePolicy::Abort {
                    step == GatherStep::<K, V, E>::Failed(error)
                } else {
                    step == GatherStep::<K, V, E>::Continue(self)
                },
            },
    {
        let mut gathering = self;
        match outcome {
            Ok(value) => {
                gathering.entries.push((key, value));
                GatherStep::Continue(gathering)
            },
            Err(error) => match gathering.policy {
                FailurePolicy::Abort => GatherStep::Failed(error),
                FailurePolicy::SkipAndContinue => GatherStep::Continue(gathering),
            },
        }
    }

    /// What the keys gave, in the order they were asked for.
    pub fn finish(self) -> (r: Vec<(K, V)>)
        ensures
            r@ == self.entries(),
    {
        self.entries
    }
}

/// Gathers what recorded listings came to, one per key, under `policy`.
/// Under `Abort`, outcomes after the first failure are not looked at.
pub fn gather_recorded<K, V, E>(policy: FailurePolicy, outcomes: Vec<(K, Result<V, E>)>) -> (r:
    Result<Vec<(K, V)>, E>)
    ensures
        match gathered(policy, outcomes@) {
            Ok(entries) => r is Ok && r->Ok_0@ == entries,
            Err(error) => r == Err::<Vec<(K, V)>, E>(error),
        },
{
    let mut gathering: Gathering<K, V> = Gathering::new(policy);
    let mut taken: usize = 0;
    proof {
        assert(outcomes@.len() == outcomes.len());
        assert(outcomes@.take(0) =~= Seq::<(K, Result<V, E>)>::empty());
    }
    for entry in it: outcomes
        invariant
            it.seq() == outcomes@,
            outcomes@.len() <= usize::MAX,
            taken == it.index(),
            gathering.policy() == policy,
            gathered(policy, outcomes@.take(taken as int)) == Ok::<Seq<(K, V)>, E>(
                gathering.entries(),
            ),
    {
        proof {
            let upto = outcomes@.take(taken + 1);
            assert(upto.drop_last() =~= outcomes@.take(taken as int));
            assert(upto.last() == entry);
        }
        taken += 1;
        let (key, outcome) = entry;
        match gathering.accept(key, outcome) {
            GatherStep::Continue(next) => {
                gathering = next;
            },
            GatherStep::Failed(error) => {
                proof {
                    lemma_failure_stays(policy, outcomes@, taken as int, error);
                }
                return Err(error);
            },
        }
    }
    proof {
        assert(outcomes@.take(taken as int) =~= outcomes@);
    }
    Ok(gathering.finish())
}

/// Once the outcomes up to some key amount to a failure, so do all of them.
pub proof fn lemma_failure_stays<K, V, E>(
    policy: FailurePolicy,
    outcomes: Seq<(K, Result<V, E>)>,
    n: int,
    error: E,
)
    requires
        0 <= n <= outcomes.len(),
        gathered(policy, outcomes.take(n)) == Err::<Seq<(K, V)>, E>(error),
    ensures
        gathered(policy, outcomes) == Err::<Seq<(K, V)>, E>(error),
    decreases outcomes.len() - n,
{
    if n == outcomes.len() {
        assert(outcomes.take(n) =~= outcomes);
    } else {
        assert(outcomes.take(n + 1).drop_last() =~= outcomes.take(n));
        lemma_failure_stays(policy, outcomes, n + 1, error);
    }
}

/// Under `Abort`, a fetch whose every listing succeeds gives one entry per
/// key, and a fetch with a failure gives the first one; under
/// `SkipAndContinue` a fetch never fails.
pub proof fn lemma_policies<K, V, E>(policy: FailurePolicy, outcomes: Seq<(K, Result<V, E>)>)
    ensures
        policy == FailurePolicy::SkipAndContinue ==> gathered(policy, outcomes) is Ok,
        (forall|i: int| 0 <= i < outcomes.len() ==> (#[trigger] outcomes[i]).1 is Ok) ==> gathered(
            policy,
            outcomes,
        ) is Ok && gathered(policy, outcomes)->Ok_0.len() == outcomes.len(),
        policy == FailurePolicy::Abort ==> (gathered(policy, outcomes) is Err <==> exists|i: int|
            0 <= i < outcomes.len() && (#[trigger] outcomes[i]).1 is Err),
    decreases outcomes.len(),
{
    if outcomes.len() > 0 {
        let front = outcomes.drop_last();
        lemma_policies(policy, front);
        assert(forall|i: int| 0 <= i < front.len() ==> front[i] == outcomes[i]);
        if policy == FailurePolicy::Abort {
            if gathered(policy, outcomes) is Err {
                if gathered(policy, front) is Err {
                    let i = choose|i: int| 0 <= i < front.len() && (#[trigger] front[i]).1 is Err;
                    assert(outcomes[i].1 is Err);
                } else {
                    assert(outcomes[outcomes.len() - 1].1 is Err);
                }
            }
            if exists|i: int| 0 <= i < outcomes.len() && (#[trigger] outcomes[i]).1 is Err {
                let i = choose|i: int| 0 <= i < outcomes.len() && (#[trigger] outcomes[i]).1 is Err;
                if i < front.len() {
                    assert(front[i].1 is Err);
                }
            }
        }
    }
}

/// What a map holds once `entries` have been put into it one after the
/// other, each under the characters of its key: of a key named more than
/// once, what was put last.
pub open spec fn held<V>(entries: Seq<(TableId, V)>) -> Map<Seq<char>, V>
    decreases entries.len(),
{
    if entries.len() == 0 {
        Map::empty()
    } else {
        held(entries.drop_last()).insert(entries.last().0@, entries.last().1)
    }
}

/// The keys of `entries`, each once, in the order in which they first come.
pub open spec fn first_keys<V>(entries: Seq<(TableId, V)>) -> Seq<Seq<char>>
    decreases entries.len(),
{
    if entries.len() == 0 {
        Seq::empty()
    } else {
        let before = first_keys(entries.drop_last());
        if before.contains(entries.last().0@) {
            before
        } else {
            before.push(entries.last().0@)
        }
    }
}

/// The keys of `entries`, one for each entry, in order.
pub open spec fn keys_of<V>(entries: Seq<(TableId, V)>) -> Seq<Seq<char>> {
    entries.map_values(|entry: (TableId, V)| entry.0@)
}

/// Whether no two of `entries` have the same key.
pub open spec fn keys_differ<V>(entries: Seq<(TableId, V)>) -> bool {
    forall|i: int, j: int|
        0 <= i < j < entries.len() ==> (#[trigger] entries[i]).0@ != (#[trigger] entries[j]).0@
}

/// Putting a value under a key that `entries` hold already, in the place of
/// that entry, comes to the same as putting it last; and the keys still
/// differ.
proof fn lemma_replace_entry<V>(entries: Seq<(TableId, V)>, i: int, entry: (TableId, V))
    requires
        keys_differ(entries),
        0 <= i < entries.len(),
        entry.0@ == entries[i].0@,
    ensures
        held(entries.update(i, entry)) == held(entries).insert(entry.0@, entry.1),
        keys_differ(entries.update(i, entry)),
    decreases entries.len(),
{
    let replaced = entries.update(i, entry);
    let front = entries.drop_last();
    let last = entries.last();
    if i == entries.len() - 1 {
        assert(replaced.drop_last() =~= front);
        assert(held(replaced) =~= held(entries).insert(entry.0@, entry.1));
    } else {
        assert(replaced.drop_last() =~= front.update(i, entry));
        assert(keys_differ(front)) by {
            assert forall|a: int, b: int| 0 <= a < b < front.len() implies (#[trigger] front[a]).0@
                != (#[trigger] front[b]).0@ by {
                assert(front[a] == entries[a] && front[b] == entries[b]);
            }
        }
        assert(front[i] == entries[i]);
        lemma_replace_entry(front, i, entry);
        assert(entries[i].0@ != entries[entries.len() - 1].0@);
        assert(held(replaced) =~= held(entries).insert(entry.0@, entry.1));
    }
    assert forall|a: int, b: int| 0 <= a < b < replaced.len() implies (#[trigger] replaced[a]).0@
        != (#[trigger] replaced[b]).0@ by {
        assert(entries[a].0@ != entries[b].0@);
    }
}

/// The entries that a map filled with `entries` in order holds: one for each
/// key, in the order in which the keys first came, each with the value that
/// came last under it.
pub fn latest_per_key<V>(entries: Vec<(TableId, V)>) -> (r: Vec<(TableId, V)>)
    ensures
        keys_differ(r@),
        keys_of(r@) == first_keys(entries@),
        held(r@) == held(entries@),
{
    let mut kept: Vec<(TableId, V)> = Vec::new();
    let mut taken: usize = 0;
    proof {
        assert(entries@.len() == entries.len());
        assert(entries@.take(0) =~= Seq::<(TableId, V)>::empty());
        assert(keys_of(kept@) =~= first_keys(entries@.take(0)));
    }
    for entry in it: entries
        invariant
            it.seq() == entries@,
            entries@.len() <= usize::MAX,
            taken == it.index(),
            keys_differ(kept@),
            keys_of(kept@) == first_keys(entries@.take(taken as int)),
            held(kept@) == held(entries@.take(taken as int)),
    {
        proof {
            let upto = entries@.take(taken + 1);
            assert(upto.drop_last() =~= entries@.take(taken as int));
            assert(upto.last() == entry);
        }
        taken += 1;
        let mut at: usize = 0;
        while at < kept.len() && !(kept[at].0 == entry.0)
            invariant
                at <= kept.len(),
                forall|j: int| 0 <= j < at ==> (#[trigger] kept@[j]).0@ != entry.0@,
            decreases kept.len() - at,
        {
            at += 1;
        }
        if at < kept.len() {
            proof {
                lemma_replace_entry(kept@, at as int, entry);
                assert(keys_of(kept@)[at as int] == entry.0@);
                assert(keys_of(kept@.update(at as int, entry)) =~= keys_of(kept@));
            }
            kept.set(at, entry);
        } else {
            proof {
                let pushed = kept@.push(entry);
                assert(pushed.drop_last() =~= kept@);
                assert(!keys_of(kept@).contains(entry.0@)) by {
                    if keys_of(kept@).contains(entry.0@) {
                        let j = choose|j: int|
                            0 <= j < keys_of(kept@).len() && keys_of(kept@)[j] == entry.0@;
                        assert(kept@[j].0@ == entry.0@);
                    }
                }
                assert(keys_of(pushed) =~= keys_of(kept@).push(entry.0@));
                assert forall|a: int, b: int| 0 <= a < b < pushed.len() implies (
                #[trigger] pushed[a]).0@ != (#[trigger] pushed[b]).0@ by {
                    if b < kept@.len() {
                        assert(kept@[a].0@ != kept@[b].0@);
                    } else {
                        assert(kept@[a].0@ != entry.0@);
                    }
                }
            }
            kept.push(entry);
        }
    }
    proof {
        assert(entries@.take(taken as int) =~= entries@);
    }
    kept
}

} // verus!
