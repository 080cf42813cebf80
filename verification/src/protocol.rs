//! The model of a handle over a mutably borrowed state: histories of calls,
//! and what a binding allows after each.

use crate::static_ref_mut_function::StaticRefMutFunction;
use vstd::prelude::*;

verus! {

/// Whether `F`, first called on the state `start`, can make the calls of
/// `history` one after the other, each on the state that the call before it
/// left, and leave the state `end`. A call is a pair of an argument and the
/// result given for it.
pub open spec fn reaches<'a, F, D, T>(start: D, history: Seq<(T, F::Output)>, end: D) -> bool where
    F: StaticRefMutFunction<'a, D, T> + ?Sized,

    decreases history.len(),
{
    if history.len() == 0 {
        end == start
    } else {
        exists|mid: D|
            reaches::<F, D, T>(start, history.drop_last(), mid) && #[trigger] F::yields(
                mid,
                history.last().0,
                end,
                history.last().1,
            )
    }
}

/// What a mutable binding allows, told without its state: after each history
/// of calls, the arguments that it takes next, and the histories that it can
/// have at all.
#[verifier::reject_recursive_types(T)]
#[verifier::reject_recursive_types(R)]
pub struct Protocol<T, R> {
    pub accepts: spec_fn(Seq<(T, R)>, T) -> bool,
    pub admits: spec_fn(Seq<(T, R)>) -> bool,
}

/// The protocol of `F` bound with a state that holds `start`: an argument is
/// taken after a history if `F` accepts it on every state that the history
/// can leave, and a history is admitted if `F` can make its calls in a row.
pub open spec fn protocol_of<'a, F, D, T>(start: D) -> Protocol<T, F::Output> where
    F: StaticRefMutFunction<'a, D, T> + ?Sized,
 {
    Protocol {
        accepts: |history: Seq<(T, F::Output)>, arg: T|
            forall|state: D| #[trigger]
                reaches::<F, D, T>(start, history, state) ==> F::accepts(state, arg),
        admits: |history: Seq<(T, F::Output)>|
            exists|state: D| reaches::<F, D, T>(start, history, state),
    }
}

/// The arguments of the calls of `history`, in order.
pub open spec fn arguments<T, R>(history: Seq<(T, R)>) -> Seq<T> {
    Seq::new(history.len(), |i: int| history[i].0)
}

/// The results of the calls of `history`, in order.
pub open spec fn results<T, R>(history: Seq<(T, R)>) -> Seq<R> {
    Seq::new(history.len(), |i: int| history[i].1)
}

/// The state that `step` leaves and the results that it gives when it is
/// applied to `start` and to each of `args` in turn, every time on the state
/// that the application before left.
pub open spec fn run<D, T, R>(step: spec_fn(D, T) -> (D, R), start: D, args: Seq<T>) -> (D, Seq<R>)
    decreases args.len(),
{
    if args.len() == 0 {
        (start, Seq::empty())
    } else {
        let before = run(step, start, args.drop_last());
        let last = step(before.0, args.last());
        (last.0, before.1.push(last.1))
    }
}

/// Whether `F` is the function `step`: on every state and argument it yields
/// no result and leaves no state but those of `step`.
pub open spec fn follows<'a, F, D, T>(step: spec_fn(D, T) -> (D, F::Output)) -> bool where
    F: StaticRefMutFunction<'a, D, T> + ?Sized,
 {
    forall|data: D, arg: T, next: D, output: F::Output| #[trigger]
        F::yields(data, arg, next, output) ==> (next, output) == step(data, arg)
}

/// A history that `F` can have grows by each call that `F` can make on the
/// state that the history leaves.
pub proof fn lemma_reaches_push<'a, F, D, T>(
    start: D,
    history: Seq<(T, F::Output)>,
    mid: D,
    arg: T,
    output: F::Output,
    end: D,
) where F: StaticRefMutFunction<'a, D, T> + ?Sized
    requires
        reaches::<F, D, T>(start, history, mid),
        F::yields(mid, arg, end, output),
    ensures
        reaches::<F, D, T>(start, history.push((arg, output)), end),
{
    let grown = history.push((arg, output));
    assert(grown.drop_last() =~= history);
    assert(F::yields(mid, grown.last().0, end, grown.last().1));
}

/// A history that ends with a call was made by that call, on some state that
/// the calls before it left.
pub proof fn lemma_reaches_last<'a, F, D, T>(
    start: D,
    history: Seq<(T, F::Output)>,
    arg: T,
    output: F::Output,
    end: D,
) where F: StaticRefMutFunction<'a, D, T> + ?Sized
    requires
        reaches::<F, D, T>(start, history.push((arg, output)), end),
    ensures
        exists|mid: D| reaches::<F, D, T>(start, history, mid) && #[trigger] F::yields(mid, arg, end, output),
{
    let grown = history.push((arg, output));
    assert(grown.drop_last() =~= history);
    assert(grown.last() == (arg, output));
}

/// Sequential calls of a function: where `F` is the function `step`, every
/// history that `F` can have from `start` holds the results that `step` gives
/// when it is applied to `start` and to the arguments in turn, and leaves the
/// state that these applications leave.
pub proof fn lemma_reaches_follows_run<'a, F, D, T>(
    step: spec_fn(D, T) -> (D, F::Output),
    start: D,
    history: Seq<(T, F::Output)>,
    end: D,
) where F: StaticRefMutFunction<'a, D, T> + ?Sized
    requires
        follows::<F, D, T>(step),
        reaches::<F, D, T>(start, history, end),
    ensures
        run(step, start, arguments(history)) == (end, results(history)),
    decreases history.len(),
{
    if history.len() == 0 {
        assert(results(history) =~= Seq::<F::Output>::empty());
    } else {
        let mid = choose|mid: D|
            reaches::<F, D, T>(start, history.drop_last(), mid) && #[trigger] F::yields(
                mid,
                history.last().0,
                end,
                history.last().1,
            );
        lemma_reaches_follows_run::<F, D, T>(step, start, history.drop_last(), mid);
        assert(arguments(history).drop_last() =~= arguments(history.drop_last()));
        assert(results(history) =~= results(history.drop_last()).push(history.last().1));
    }
}

/// Sequential calls through a binding of a function: where `F` is the
/// function `step`, a history that the protocol of `F` bound with `start`
/// admits holds the results that `step` gives when it is applied to `start`
/// and to the arguments in turn, and the protocol takes next every argument
/// that `F` accepts on the state that these applications leave.
pub proof fn lemma_protocol_follows_run<'a, F, D, T>(
    step: spec_fn(D, T) -> (D, F::Output),
    start: D,
    history: Seq<(T, F::Output)>,
) where F: StaticRefMutFunction<'a, D, T> + ?Sized
    requires
        follows::<F, D, T>(step),
    ensures
        (protocol_of::<F, D, T>(start).admits)(history) ==> results(history) == run(
            step,
            start,
            arguments(history),
        ).1,
        forall|arg: T| #[trigger]
            F::accepts(run(step, start, arguments(history)).0, arg) ==> (protocol_of::<F, D, T>(
                start,
            ).accepts)(history, arg),
{
    if (protocol_of::<F, D, T>(start).admits)(history) {
        let end = choose|end: D| reaches::<F, D, T>(start, history, end);
        lemma_reaches_follows_run::<F, D, T>(step, start, history, end);
    }
    assert forall|arg: T| #[trigger]
        F::accepts(run(step, start, arguments(history)).0, arg) implies (protocol_of::<F, D, T>(
        start,
    ).accepts)(history, arg) by {
        assert forall|state: D| #[trigger] reaches::<F, D, T>(start, history, state) implies F::accepts(
            state,
            arg,
        ) by {
            lemma_reaches_follows_run::<F, D, T>(step, start, history, state);
        }
    }
}

/// A callable is its own state and a call leaves it as it was: every history
/// that it can have leaves the callable itself, and each call of the history
/// is one that the callable can make.
pub proof fn lemma_callable_reaches<C, T, R>(callable: C, history: Seq<(T, R)>, end: C) where
    C: FnMut(T) -> R,

    requires
        reaches::<C, C, T>(callable, history, end),
    ensures
        end == callable,
        forall|i: int|
            0 <= i < history.len() ==> call_ensures(
                callable,
                ((#[trigger] history[i]).0,),
                history[i].1,
            ),
    decreases history.len(),
{
    if history.len() > 0 {
        let mid = choose|mid: C|
            reaches::<C, C, T>(callable, history.drop_last(), mid) && #[trigger] C::yields(
                mid,
                history.last().0,
                end,
                history.last().1,
            );
        lemma_callable_reaches::<C, T, R>(callable, history.drop_last(), mid);
        assert forall|i: int| 0 <= i < history.len() implies call_ensures(
            callable,
            ((#[trigger] history[i]).0,),
            history[i].1,
        ) by {
            if i < history.len() - 1 {
                assert(history[i] == history.drop_last()[i]);
            }
        }
    }
}

/// The protocol of a callable bound as its own state: after every history it
/// takes each argument that the callable requires no more than, and each call
/// of a history that it admits is one that the callable can make.
pub proof fn lemma_callable_protocol<C, T, R>(callable: C, history: Seq<(T, R)>) where
    C: FnMut(T) -> R,

    ensures
        forall|arg: T| #[trigger]
            call_requires(callable, (arg,)) ==> (protocol_of::<C, C, T>(callable).accepts)(
                history,
                arg,
            ),
        (protocol_of::<C, C, T>(callable).admits)(history) ==> forall|i: int|
            0 <= i < history.len() ==> call_ensures(
                callable,
                ((#[trigger] history[i]).0,),
                history[i].1,
            ),
{
    if (protocol_of::<C, C, T>(callable).admits)(history) {
        let end = choose|end: C| reaches::<C, C, T>(callable, history, end);
        lemma_callable_reaches::<C, T, R>(callable, history, end);
    }
    assert forall|arg: T| #[trigger] call_requires(callable, (arg,)) implies (protocol_of::<C, C, T>(
        callable,
    ).accepts)(history, arg) by {
        assert forall|state: C| #[trigger] reaches::<C, C, T>(callable, history, state) implies C::accepts(
            state,
            arg,
        ) by {
            lemma_callable_reaches::<C, T, R>(callable, history, state);
        }
    }
}

} // verus!
