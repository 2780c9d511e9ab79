use vstd::prelude::*;

verus! {

/// The sequence that holds a step where there is one, else the empty one.
pub open spec fn step_seq<S>(step: Option<S>) -> Seq<S> {
    match step {
        Some(s) => seq![s],
        None => seq![],
    }
}

/// The steps that are given, in order.
pub open spec fn given_steps<S>(candidates: Seq<Option<S>>) -> Seq<S>
    decreases candidates.len(),
{
    if candidates.len() == 0 {
        seq![]
    } else {
        given_steps(candidates.drop_last()) + step_seq(candidates.last())
    }
}

/// Appends the step where there is one.
pub fn push_step<S>(steps: &mut Vec<S>, step: Option<S>)
    ensures
        final(steps)@ == old(steps)@ + step_seq(step),
{
    match step {
        Some(s) => {
            steps.push(s);
            assert(final(steps)@ =~= old(steps)@ + step_seq(step));
        },
        None => {
            assert(old(steps)@ + step_seq(step) =~= old(steps)@);
        },
    }
}

} // verus!

verus! {

/// The sequence made from an optional step holds exactly that step.
pub broadcast proof fn step_seq_contains<S>(step: Option<S>, s: S)
    ensures
        #[trigger] step_seq(step).contains(s) <==> step == Some(s),
{
    if step == Some(s) {
        assert(step_seq(step)[0] == s);
    }
}

} // verus!

verus! {

/// Where no step is given, there are none.
pub proof fn given_steps_of_nothing<S>(candidates: Seq<Option<S>>)
    requires
        forall|i: int| 0 <= i < candidates.len() ==> (#[trigger] candidates[i]) is None,
    ensures
        given_steps(candidates) == Seq::<S>::empty(),
    decreases candidates.len(),
{
    if candidates.len() > 0 {
        given_steps_of_nothing(candidates.drop_last());
        assert(given_steps(candidates) =~= Seq::<S>::empty());
    }
}

} // verus!
