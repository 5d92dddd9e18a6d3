//! What holds of every pipeline, whatever its steps and whatever its state.
use vstd::prelude::*;
use crate::pipeline::chain::{ToolChain, TxTProcessor};
use crate::pipeline::effects::{
    Effect, apply_all, lemma_apply_all_concat, lemma_apply_all_single,
    lemma_same_effects_same_end, same_effects,
};
use crate::pipeline::registry::TxtProcessor;
use crate::pipeline::step::Processing;

verus! {

/// A run is the first step followed by a run of the remaining steps on what
/// the first step left.
pub proof fn lemma_first_step_runs_first<V>(effects: Seq<Effect<V>>, start: V)
    requires
        effects.len() > 0,
    ensures
        apply_all(effects, start) == apply_all(effects.drop_first(), (effects[0])(start)),
{
    assert(effects =~= seq![effects[0]] + effects.drop_first());
    lemma_apply_all_concat(seq![effects[0]], effects.drop_first(), start);
    lemma_apply_all_single(effects[0], start);
}

/// A run is the last step applied to what a run of the steps before it left.
pub proof fn lemma_last_step_runs_last<V>(effects: Seq<Effect<V>>, start: V)
    requires
        effects.len() > 0,
    ensures
        apply_all(effects, start) == (effects.last())(apply_all(effects.drop_last(), start)),
{
}

/// A run can be cut at any step: the steps after the cut work on what the
/// steps before it left, so no step is skipped, repeated or moved.
pub proof fn lemma_run_in_two_parts<V>(effects: Seq<Effect<V>>, cut: int, start: V)
    requires
        0 <= cut <= effects.len(),
    ensures
        apply_all(effects, start) == apply_all(
            effects.skip(cut),
            apply_all(effects.take(cut), start),
        ),
{
    assert(effects =~= effects.take(cut) + effects.skip(cut));
    lemma_apply_all_concat(effects.take(cut), effects.skip(cut), start);
}

/// A pair runs its head, then its tail on what the head left.
pub proof fn lemma_pair_runs_head_then_tail<Head, Tail>(
    chain: (Head, Tail),
    start: <Head::Context as View>::V,
) where Head: Processing, Tail: ToolChain<Context = Head::Context>
    ensures
        apply_all(chain.effects(), start) == apply_all(
            chain.1.effects(),
            chain.0.effect(start),
        ),
{
    let head = seq![|t: <Head::Context as View>::V| chain.0.effect(t)];
    lemma_apply_all_concat(head, chain.1.effects(), start);
    lemma_apply_all_single(head[0], start);
}

/// A nested pair of three steps holds them in the order in which they are
/// written, as a list of three registered steps does.
pub proof fn lemma_nested_pair_lists_its_steps<A, B, C>(a: A, b: B, c: C) where
    A: Processing,
    B: Processing<Context = A::Context>,
    C: Processing<Context = A::Context>,

    ensures
        same_effects(
            (a, (b, c)).effects(),
            seq![
                |t: <A::Context as View>::V| a.effect(t),
                |t: <A::Context as View>::V| b.effect(t),
                |t: <A::Context as View>::V| c.effect(t),
            ],
        ),
{
}

/// A chain composed statically and a processor filled by registration leave
/// the same state when their steps act alike, one by one and in the same order.
pub proof fn lemma_chain_matches_registry<T, S>(
    chain: TxTProcessor<T>,
    registry: TxtProcessor<S>,
    start: <T::Context as View>::V,
) where T: ToolChain, S: ?Sized + Processing<Context = T::Context>
    requires
        same_effects(chain.effects(), registry.effects()),
    ensures
        apply_all(chain.effects(), start) == apply_all(registry.effects(), start),
{
    lemma_same_effects_same_end(chain.effects(), registry.effects(), start);
}

/// The nested pair of three steps and the processor in which the same three
/// steps were registered in the same order leave the same state.
///
/// The four processors are the registry as it was made and after each of
/// the three registrations.
pub proof fn lemma_three_steps_either_way<A, B, C, S>(
    a: A,
    b: B,
    c: C,
    chain: TxTProcessor<(A, (B, C))>,
    empty: TxtProcessor<S>,
    one: TxtProcessor<S>,
    two: TxtProcessor<S>,
    three: TxtProcessor<S>,
    start: <A::Context as View>::V,
) where
    A: Processing,
    B: Processing<Context = A::Context>,
    C: Processing<Context = A::Context>,
    S: ?Sized + Processing<Context = A::Context>,

    requires
        chain.tools() == (a, (b, c)),
        empty.effects().len() == 0,
        same_effects(
            one.effects(),
            empty.effects().push(|t: <A::Context as View>::V| a.effect(t)),
        ),
        same_effects(two.effects(), one.effects().push(|t: <A::Context as View>::V| b.effect(t))),
        same_effects(
            three.effects(),
            two.effects().push(|t: <A::Context as View>::V| c.effect(t)),
        ),
    ensures
        apply_all(chain.effects(), start) == apply_all(three.effects(), start),
{
    let fa = |t: <A::Context as View>::V| a.effect(t);
    let fb = |t: <A::Context as View>::V| b.effect(t);
    let fc = |t: <A::Context as View>::V| c.effect(t);
    let listed = seq![fa, fb, fc];
    lemma_same_effects_same_end(chain.effects(), listed, start);
    lemma_same_effects_same_end(three.effects(), listed, start);
}

/// A processor without steps leaves every state as it is.
pub proof fn lemma_no_step_no_change<S: ?Sized + Processing>(
    registry: TxtProcessor<S>,
    start: <S::Context as View>::V,
)
    requires
        registry.effects().len() == 0,
    ensures
        apply_all(registry.effects(), start) == start,
{
}

/// A processor that has run acts on the next state as it did on the last:
/// given equal states, a registry before and after a run leaves equal states.
pub proof fn lemma_registry_runs_alike<S: ?Sized + Processing>(
    before: TxtProcessor<S>,
    after: TxtProcessor<S>,
    first: <S::Context as View>::V,
    second: <S::Context as View>::V,
)
    requires
        same_effects(after.effects(), before.effects()),
        first == second,
    ensures
        apply_all(after.effects(), second) == apply_all(before.effects(), first),
{
    lemma_same_effects_same_end(after.effects(), before.effects(), first);
}

/// A chain that has run acts on the next state as it did on the last.
pub proof fn lemma_chain_runs_alike<T: ToolChain>(
    before: TxTProcessor<T>,
    after: TxTProcessor<T>,
    first: <T::Context as View>::V,
    second: <T::Context as View>::V,
)
    requires
        same_effects(after.effects(), before.effects()),
        first == second,
    ensures
        apply_all(after.effects(), second) == apply_all(before.effects(), first),
{
    lemma_same_effects_same_end(after.effects(), before.effects(), first);
}

} // verus!
