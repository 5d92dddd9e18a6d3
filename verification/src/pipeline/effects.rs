//! What steps do, as values: a step's effect is a function on the state it
//! works on, and a pipeline's effect is its steps' effects in order.
use vstd::prelude::*;

verus! {

/// The effect of a step, seen from outside: the state it makes of a state.
pub type Effect<V> = spec_fn(V) -> V;

/// The state left after applying `effects` to `start` one at a time, first to last.
pub open spec fn apply_all<V>(effects: Seq<Effect<V>>, start: V) -> V
    decreases effects.len(),
{
    if effects.len() == 0 {
        start
    } else {
        (effects.last())(apply_all(effects.drop_last(), start))
    }
}

/// Two lists of effects that act alike, step by step, on every state.
pub open spec fn same_effects<V>(a: Seq<Effect<V>>, b: Seq<Effect<V>>) -> bool {
    &&& a.len() == b.len()
    &&& forall|i: int, t: V| 0 <= i < a.len() ==> #[trigger] (a[i])(t) == (b[i])(t)
}

/// Running one list of steps after another is running the joined list.
pub proof fn lemma_apply_all_concat<V>(first: Seq<Effect<V>>, second: Seq<Effect<V>>, start: V)
    ensures
        apply_all(first + second, start) == apply_all(second, apply_all(first, start)),
    decreases second.len(),
{
    if second.len() > 0 {
        assert((first + second).drop_last() =~= first + second.drop_last());
        lemma_apply_all_concat(first, second.drop_last(), start);
    }
}

/// A list of one step does what that step does.
pub proof fn lemma_apply_all_single<V>(effect: Effect<V>, start: V)
    ensures
        apply_all(seq![effect], start) == effect(start),
{
    let one = seq![effect];
    assert(apply_all(one.drop_last(), start) == start);
}

/// Lists of steps that act alike leave the same state.
pub proof fn lemma_same_effects_same_end<V>(a: Seq<Effect<V>>, b: Seq<Effect<V>>, start: V)
    requires
        same_effects(a, b),
    ensures
        apply_all(a, start) == apply_all(b, start),
    decreases a.len(),
{
    if a.len() > 0 {
        lemma_same_effects_same_end(a.drop_last(), b.drop_last(), start);
    }
}

} // verus!
