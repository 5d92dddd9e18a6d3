use vstd::prelude::*;

verus! {

/// A unit of work on a shared state, the context.
///
/// What a step does to a state is fixed: `effect` depends on the state
/// alone, and applying the step leaves `effect` and `label` as they were.
/// A step holds the context only while it is applied.
pub trait Processing {
    /// The state this step works on.
    type Context: View;

    /// The state this step makes of `before`.
    spec fn effect(&self, before: <Self::Context as View>::V) -> <Self::Context as View>::V;

    /// The step's name, for diagnostics.
    spec fn label(&self) -> Seq<char>;

    fn name(&self) -> (res: &str)
        ensures
            res@ == self.label(),
    ;

    fn apply(&mut self, context: &mut Self::Context)
        ensures
            final(context)@ == old(self).effect(old(context)@),
            final(self).label() == old(self).label(),
            forall|t: <Self::Context as View>::V| #[trigger]
                final(self).effect(t) == old(self).effect(t),
    ;
}

} // verus!
