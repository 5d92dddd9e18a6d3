use vstd::prelude::*;
use crate::pipeline::effects::{
    Effect, apply_all, lemma_apply_all_concat, lemma_apply_all_single, same_effects,
};
use crate::pipeline::step::Processing;

verus! {

/// A non-empty sequence of steps whose order is fixed by its type.
pub trait ToolChain {
    /// The state the chain's steps work on.
    type Context: View;

    /// The effects of the chain's steps, first to last.
    spec fn effects(&self) -> Seq<Effect<<Self::Context as View>::V>>;

    fn apply(&mut self, context: &mut Self::Context)
        ensures
            final(context)@ == apply_all(old(self).effects(), old(context)@),
            same_effects(final(self).effects(), old(self).effects()),
    ;
}

/// A single step is a chain of one.
impl<T: Processing> ToolChain for T {
    type Context = T::Context;

    open spec fn effects(&self) -> Seq<Effect<<T::Context as View>::V>> {
        seq![|t: <T::Context as View>::V| self.effect(t)]
    }

    fn apply(&mut self, context: &mut T::Context) {
        Processing::apply(self, context);
        proof {
            lemma_apply_all_single(
                |t: <T::Context as View>::V| old(self).effect(t),
                old(context)@,
            );
        }
    }
}

/// A step followed by a chain on the same state is a chain: the step comes
/// first, the chain after it.
impl<Head: Processing, Tail: ToolChain<Context = Head::Context>> ToolChain for (Head, Tail) {
    type Context = Head::Context;

    open spec fn effects(&self) -> Seq<Effect<<Head::Context as View>::V>> {
        seq![|t: <Head::Context as View>::V| self.0.effect(t)] + self.1.effects()
    }

    fn apply(&mut self, context: &mut Head::Context) {
        let ghost head = seq![|t: <Head::Context as View>::V| old(self).0.effect(t)];
        self.0.apply(context);
        self.1.apply(context);
        proof {
            lemma_apply_all_single(head[0], old(context)@);
            lemma_apply_all_concat(head, old(self).1.effects(), old(context)@);
        }
    }
}

/// A processor whose steps are composed when it is built: one step, or a
/// pair of a step and a further chain.
pub struct TxTProcessor<T> {
    processings: T,
}

impl<T: ToolChain> TxTProcessor<T> {
    /// The chain this processor owns.
    pub closed spec fn tools(&self) -> T {
        self.processings
    }

    /// The effects of the processor's steps, first to last.
    pub open spec fn effects(&self) -> Seq<Effect<<T::Context as View>::V>> {
        self.tools().effects()
    }

    pub fn new(tools: T) -> (res: Self)
        ensures
            res.tools() == tools,
    {
        TxTProcessor { processings: tools }
    }

    /// Applies every step once to `context`, head before tail.
    pub fn run(&mut self, context: &mut T::Context)
        ensures
            final(context)@ == apply_all(old(self).effects(), old(context)@),
            same_effects(final(self).effects(), old(self).effects()),
    {
        self.processings.apply(context);
    }
}

} // verus!
