//! Steps that can refuse, and a processor that stops at the first refusal.
//!
//! A step that refuses leaves the context as it found it and gives a reason.
//! The run ends there: the steps before it have had their effect, the steps
//! after it are not applied, and the caller is told which step refused and why.
use vstd::prelude::*;
use crate::pipeline::content::EditorContent;
use crate::pipeline::step::Processing;

verus! {

/// What a fallible step makes of a state: a new state, or a reason to refuse.
pub type Verdict<V> = spec_fn(V) -> Result<V, Seq<char>>;

/// Why a run stopped: the name of the step that refused, and its reason.
#[derive(Debug)]
pub struct StepFailure {
    pub step: String,
    pub reason: String,
}

/// Where a run stopped, as a value: the position of the step that refused,
/// counted from 0, and its reason.
pub struct Stop {
    pub at: int,
    pub reason: Seq<char>,
}

/// How a run ended, as a value: the state it left, and where it stopped if
/// a step refused.
pub struct RunEnd<V> {
    pub state: V,
    pub stop: Option<Stop>,
}

/// A unit of work on a shared state that may refuse.
///
/// Whether a step refuses a state, and what it makes of it otherwise, is
/// fixed: `verdict` depends on the state alone, and trying the step leaves
/// `verdict` and `label` as they were.
pub trait TryProcessing {
    /// The state this step works on.
    type Context: View;

    /// What this step makes of `before`.
    spec fn verdict(&self, before: <Self::Context as View>::V) -> Result<
        <Self::Context as View>::V,
        Seq<char>,
    >;

    /// The step's name, for diagnostics.
    spec fn label(&self) -> Seq<char>;

    fn name(&self) -> (res: &str)
        ensures
            res@ == self.label(),
    ;

    /// Applies the step, or refuses with a reason and leaves `context` alone.
    fn try_apply(&mut self, context: &mut Self::Context) -> (res: Result<(), String>)
        ensures
            match old(self).verdict(old(context)@) {
                Ok(state) => res is Ok && final(context)@ == state,
                Err(reason) => res is Err && res->Err_0@ == reason && final(context)@ == old(
                    context,
                )@,
            },
            final(self).label() == old(self).label(),
            forall|t: <Self::Context as View>::V| #[trigger]
                final(self).verdict(t) == old(self).verdict(t),
    ;
}

/// How a run of `verdicts` on `start` ends: each step works on what the
/// steps before it left, and the first refusal ends the run.
pub open spec fn run_until_refusal<V>(verdicts: Seq<Verdict<V>>, start: V) -> RunEnd<V>
    decreases verdicts.len(),
{
    if verdicts.len() == 0 {
        RunEnd { state: start, stop: None }
    } else {
        let before = run_until_refusal(verdicts.drop_last(), start);
        if before.stop is Some {
            before
        } else {
            match (verdicts.last())(before.state) {
                Ok(next) => RunEnd { state: next, stop: None },
                Err(reason) => RunEnd {
                    state: before.state,
                    stop: Some(Stop { at: verdicts.len() - 1, reason }),
                },
            }
        }
    }
}

/// Two lists of verdicts that agree, step by step, on every state.
pub open spec fn same_verdicts<V>(a: Seq<Verdict<V>>, b: Seq<Verdict<V>>) -> bool {
    &&& a.len() == b.len()
    &&& forall|i: int, t: V| 0 <= i < a.len() ==> #[trigger] (a[i])(t) == (b[i])(t)
}

/// Lists of verdicts that agree end every run alike.
pub proof fn lemma_same_verdicts_same_end<V>(a: Seq<Verdict<V>>, b: Seq<Verdict<V>>, start: V)
    requires
        same_verdicts(a, b),
    ensures
        run_until_refusal(a, start) == run_until_refusal(b, start),
    decreases a.len(),
{
    if a.len() > 0 {
        lemma_same_verdicts_same_end(a.drop_last(), b.drop_last(), start);
    }
}

/// A run that has stopped stays stopped: steps added behind a refusal
/// change neither the state nor the report.
pub proof fn lemma_nothing_runs_after_a_refusal<V>(
    verdicts: Seq<Verdict<V>>,
    later: Seq<Verdict<V>>,
    start: V,
)
    requires
        run_until_refusal(verdicts, start).stop is Some,
    ensures
        run_until_refusal(verdicts + later, start) == run_until_refusal(verdicts, start),
    decreases later.len(),
{
    if later.len() > 0 {
        assert((verdicts + later).drop_last() =~= verdicts + later.drop_last());
        lemma_nothing_runs_after_a_refusal(verdicts, later.drop_last(), start);
    }
}

/// Fail-fast: where the steps before a step all accept and that step
/// refuses, the run leaves what the steps before it made, reports that step
/// with its reason, and applies none of the steps behind it.
pub proof fn lemma_first_refusal_ends_the_run<V>(verdicts: Seq<Verdict<V>>, at: int, start: V)
    requires
        0 <= at < verdicts.len(),
        run_until_refusal(verdicts.take(at), start).stop is None,
        (verdicts[at])(run_until_refusal(verdicts.take(at), start).state) is Err,
    ensures
        run_until_refusal(verdicts, start) == (RunEnd {
            state: run_until_refusal(verdicts.take(at), start).state,
            stop: Some(
                Stop {
                    at,
                    reason: (verdicts[at])(
                        run_until_refusal(verdicts.take(at), start).state,
                    )->Err_0,
                },
            ),
        }),
{
    let upto = verdicts.take(at + 1);
    assert(upto.drop_last() =~= verdicts.take(at));
    assert(verdicts =~= upto + verdicts.skip(at + 1));
    lemma_nothing_runs_after_a_refusal(upto, verdicts.skip(at + 1), start);
}

/// A step that cannot refuse, taken as one that may.
pub struct Always<P: Processing>(pub P);

impl<P: Processing> TryProcessing for Always<P> {
    type Context = P::Context;

    open spec fn verdict(&self, before: <P::Context as View>::V) -> Result<
        <P::Context as View>::V,
        Seq<char>,
    > {
        Ok(self.0.effect(before))
    }

    open spec fn label(&self) -> Seq<char> {
        self.0.label()
    }

    fn name(&self) -> (res: &str) {
        self.0.name()
    }

    fn try_apply(&mut self, context: &mut P::Context) -> (res: Result<(), String>) {
        self.0.apply(context);
        Ok(())
    }
}

/// Refuses a buffer of more than `limit` characters and lets any other pass
/// unchanged.
pub struct MaxLength {
    pub limit: usize,
}

impl TryProcessing for MaxLength {
    type Context = EditorContent;

    open spec fn verdict(&self, text: Seq<char>) -> Result<Seq<char>, Seq<char>> {
        if text.len() > self.limit {
            Err("text too long"@)
        } else {
            Ok(text)
        }
    }

    open spec fn label(&self) -> Seq<char> {
        "MaxLength"@
    }

    fn name(&self) -> (res: &str) {
        "MaxLength"
    }

    fn try_apply(&mut self, context: &mut EditorContent) -> (res: Result<(), String>) {
        if context.content.as_str().unicode_len() > self.limit {
            Err("text too long".to_owned())
        } else {
            Ok(())
        }
    }
}

/// The verdicts of a list of boxed steps, in the list's order.
pub open spec fn verdicts_of<S: ?Sized + TryProcessing>(steps: Seq<Box<S>>) -> Seq<
    Verdict<<S::Context as View>::V>,
> {
    Seq::new(steps.len(), |i: int| (|t: <S::Context as View>::V| steps[i].verdict(t)))
}

/// The names of a list of boxed steps, in the list's order.
pub open spec fn try_labels_of<S: ?Sized + TryProcessing>(steps: Seq<Box<S>>) -> Seq<Seq<char>> {
    Seq::new(steps.len(), |i: int| steps[i].label())
}

/// A processor of steps that may refuse. Steps are registered one by one
/// and tried in the order of their registration, up to the first refusal.
pub struct TryProcessor<S: ?Sized + TryProcessing> {
    processings: Vec<Box<S>>,
}

impl<S: ?Sized + TryProcessing> TryProcessor<S> {
    /// The verdicts of the registered steps, oldest first.
    pub closed spec fn verdicts(&self) -> Seq<Verdict<<S::Context as View>::V>> {
        verdicts_of(self.processings@)
    }

    /// The names of the registered steps, oldest first.
    pub closed spec fn labels(&self) -> Seq<Seq<char>> {
        try_labels_of(self.processings@)
    }

    /// A processor with no step.
    pub fn new() -> (res: Self)
        ensures
            res.verdicts() == Seq::<Verdict<<S::Context as View>::V>>::empty(),
            res.labels() == Seq::<Seq<char>>::empty(),
    {
        TryProcessor { processings: Vec::new() }
    }

    /// Adds `processing` after the steps registered so far.
    pub fn register_processing(&mut self, processing: Box<S>)
        ensures
            same_verdicts(
                final(self).verdicts(),
                old(self).verdicts().push(|t: <S::Context as View>::V| processing.verdict(t)),
            ),
            final(self).labels() == old(self).labels().push(processing.label()),
    {
        self.processings.push(processing);
    }

    /// Tries the registered steps on `content`, oldest first, and stops at
    /// the first that refuses.
    pub fn run(&mut self, content: &mut S::Context) -> (res: Result<(), StepFailure>)
        ensures
            final(content)@ == run_until_refusal(old(self).verdicts(), old(content)@).state,
            match run_until_refusal(old(self).verdicts(), old(content)@).stop {
                None => res is Ok,
                Some(stop) => res is Err && res->Err_0.step@ == old(self).labels()[stop.at]
                    && res->Err_0.reason@ == stop.reason,
            },
            same_verdicts(final(self).verdicts(), old(self).verdicts()),
            final(self).labels() == old(self).labels(),
    {
        let n = self.processings.len();
        let ghost all = old(self).verdicts();
        let ghost start = old(content)@;
        let mut i: usize = 0;
        while i < n
            invariant
                i <= n,
                n == self.processings.len(),
                all == old(self).verdicts(),
                all.len() == n,
                start == old(content)@,
                run_until_refusal(all.take(i as int), start) == (RunEnd {
                    state: content@,
                    stop: None,
                }),
                same_verdicts(self.verdicts(), all),
                self.labels() =~= old(self).labels(),
            decreases n - i,
        {
            let ghost before = self.verdicts();
            let ghost state = content@;
            let tried = self.processings[i].try_apply(content);
            proof {
                assert(all.take(i + 1).drop_last() =~= all.take(i as int));
                assert((all[i as int])(state) == (before[i as int])(state));
                assert forall|j: int, t: <S::Context as View>::V| 0 <= j < n implies #[trigger] (
                self.verdicts()[j])(t) == (all[j])(t) by {
                    assert((before[j])(t) == (all[j])(t));
                }
            }
            match tried {
                Ok(_) => {},
                Err(reason) => {
                    let step = self.processings[i].name().to_owned();
                    proof {
                        assert(all =~= all.take(i + 1) + all.skip(i + 1));
                        lemma_nothing_runs_after_a_refusal(all.take(i + 1), all.skip(i + 1), start);
                    }
                    return Err(StepFailure { step, reason });
                },
            }
            i = i + 1;
        }
        proof {
            assert(all.take(n as int) =~= all);
        }
        Ok(())
    }
}

} // verus!
