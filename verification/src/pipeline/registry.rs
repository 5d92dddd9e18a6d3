use vstd::prelude::*;
use crate::pipeline::effects::{Effect, apply_all, same_effects};
use crate::pipeline::step::Processing;

verus! {

/// The effects of a list of boxed steps, in the list's order.
pub open spec fn effects_of<S: ?Sized + Processing>(steps: Seq<Box<S>>) -> Seq<
    Effect<<S::Context as View>::V>,
> {
    Seq::new(steps.len(), |i: int| (|t: <S::Context as View>::V| steps[i].effect(t)))
}

/// The names of a list of boxed steps, in the list's order.
pub open spec fn labels_of<S: ?Sized + Processing>(steps: Seq<Box<S>>) -> Seq<Seq<char>> {
    Seq::new(steps.len(), |i: int| steps[i].label())
}

/// A processor whose steps are registered one by one and run in the order of
/// their registration.
///
/// The steps are boxed. Where `S` is a trait object, steps of different
/// types share one processor and each call goes through the step's table of
/// methods; where `S` is one step type, the calls are direct.
pub struct TxtProcessor<S: ?Sized + Processing> {
    processings: Vec<Box<S>>,
}

impl<S: ?Sized + Processing> TxtProcessor<S> {
    /// The effects of the registered steps, oldest first.
    pub closed spec fn effects(&self) -> Seq<Effect<<S::Context as View>::V>> {
        effects_of(self.processings@)
    }

    /// The names of the registered steps, oldest first.
    pub closed spec fn labels(&self) -> Seq<Seq<char>> {
        labels_of(self.processings@)
    }

    /// A processor with no step.
    pub fn new() -> (res: Self)
        ensures
            res.effects() == Seq::<Effect<<S::Context as View>::V>>::empty(),
            res.labels() == Seq::<Seq<char>>::empty(),
    {
        TxtProcessor { processings: Vec::new() }
    }

    /// Adds `processing` after the steps registered so far.
    pub fn register_processing(&mut self, processing: Box<S>)
        ensures
            same_effects(
                final(self).effects(),
                old(self).effects().push(|t: <S::Context as View>::V| processing.effect(t)),
            ),
            final(self).labels() == old(self).labels().push(processing.label()),
    {
        self.processings.push(processing);
    }

    /// The number of registered steps.
    pub fn len(&self) -> (res: usize)
        ensures
            res == self.effects().len(),
            res == self.labels().len(),
    {
        self.processings.len()
    }

    /// The name of the step registered at `index`.
    pub fn name_at(&self, index: usize) -> (res: &str)
        requires
            index < self.labels().len(),
        ensures
            res@ == self.labels()[index as int],
    {
        self.processings[index].name()
    }

    /// Applies every registered step once to `content`, oldest first.
    pub fn run(&mut self, content: &mut S::Context)
        ensures
            final(content)@ == apply_all(old(self).effects(), old(content)@),
            same_effects(final(self).effects(), old(self).effects()),
            final(self).labels() == old(self).labels(),
    {
        let n = self.processings.len();
        let ghost all = old(self).effects();
        let mut i: usize = 0;
        while i < n
            invariant
                i <= n,
                n == self.processings.len(),
                all == old(self).effects(),
                all.len() == n,
                content@ == apply_all(all.take(i as int), old(content)@),
                same_effects(self.effects(), all),
                self.labels() =~= old(self).labels(),
            decreases n - i,
        {
            let ghost before = self.effects();
            let ghost state = content@;
            self.processings[i].apply(content);
            proof {
                assert(all.take(i + 1).drop_last() =~= all.take(i as int));
                assert((all[i as int])(state) == (before[i as int])(state));
                assert forall|j: int, t: <S::Context as View>::V| 0 <= j < n implies #[trigger] (
                self.effects()[j])(t) == (all[j])(t) by {
                    assert((before[j])(t) == (all[j])(t));
                }
            }
            i = i + 1;
        }
        proof {
            assert(all.take(n as int) =~= all);
        }
    }
}

} // verus!
