use crate::protocol::follows;
use crate::protocol::arguments;
use crate::protocol::lemma_callable_protocol;
use crate::protocol::lemma_protocol_follows_run;
use crate::protocol::lemma_reaches_push;
use crate::protocol::protocol_of;
use crate::protocol::reaches;
use crate::protocol::results;
use crate::protocol::run;
use crate::protocol::Protocol;
use crate::static_ref_mut_function::StaticRefMutFunction;
use std::marker::PhantomData;
use vstd::prelude::*;

verus! {

/// What a handle keeps of a mutable binding once the types of the state and
/// of the function are hidden: the calls made so far, what may follow them,
/// and the call itself.
pub(crate) trait CalleeMut<T, R> {
    spec fn wf(&self) -> bool;

    spec fn history(&self) -> Seq<(T, R)>;

    spec fn protocol(&self) -> Protocol<T, R>;

    fn invoke(&mut self, arg: T) -> (output: R)
        requires
            old(self).wf(),
            (old(self).protocol().accepts)(old(self).history(), arg),
        ensures
            final(self).wf(),
            final(self).history() == old(self).history().push((arg, output)),
            final(self).protocol() == old(self).protocol(),
            (final(self).protocol().admits)(final(self).history()),
    ;
}

/// A mutably borrowed state together with the function `F` that is called on
/// it, the value that the state held when it was bound, and the calls made
/// since.
pub(crate) struct BoundMut<'a, F: ?Sized, D, T, R> {
    pub(crate) data: &'a mut D,
    pub(crate) start: Ghost<D>,
    pub(crate) history: Ghost<Seq<(T, R)>>,
    pub(crate) function: Ghost<PhantomData<F>>,
}

impl<'a, F: ?Sized, D, T, R> BoundMut<'a, F, D, T, R> where
    F: for<'b> StaticRefMutFunction<'b, D, T, Output = R>,
 {
    /// The state holds a value that `F` reaches from the first one by the
    /// calls made so far.
    pub(crate) open spec fn consistent(&self) -> bool {
        reaches::<F, D, T>(self.start@, self.history@, *self.data)
    }

    /// Binds `data`, with no call made.
    pub(crate) fn new(data: &'a mut D) -> (bound: Self)
        ensures
            bound.consistent(),
            bound.start@ == *old(data),
            bound.history@ == Seq::<(T, R)>::empty(),
    {
        BoundMut {
            start: Ghost(*data),
            history: Ghost(Seq::empty()),
            function: Ghost(PhantomData),
            data,
        }
    }

    /// Calls `F` on the state and records the call.
    pub(crate) fn step(&mut self, arg: T) -> (output: R)
        requires
            old(self).consistent(),
            (protocol_of::<F, D, T>(old(self).start@).accepts)(old(self).history@, arg),
        ensures
            final(self).consistent(),
            final(self).start@ == old(self).start@,
            final(self).history@ == old(self).history@.push((arg, output)),
    {
        let ghost before = *self.data;
        let output = F::call_mut(self.data, arg);
        proof {
            lemma_reaches_push::<F, D, T>(
                self.start@,
                self.history@,
                before,
                arg,
                output,
                *self.data,
            );
            self.history@ = self.history@.push((arg, output));
        }
        output
    }
}

impl<'a, F: ?Sized, D, T, R> CalleeMut<T, R> for BoundMut<'a, F, D, T, R> where
    F: for<'b> StaticRefMutFunction<'b, D, T, Output = R>,
 {
    open spec fn wf(&self) -> bool {
        self.consistent()
    }

    open spec fn history(&self) -> Seq<(T, R)> {
        self.history@
    }

    open spec fn protocol(&self) -> Protocol<T, R> {
        protocol_of::<F, D, T>(self.start@)
    }

    fn invoke(&mut self, arg: T) -> (output: R) {
        self.step(arg)
    }
}

/// A reference to a function of one argument over a mutably borrowed state,
/// which a call may change. The types of the state and of the function are
/// hidden. It behaves like a [`&mut dyn FnMut(T) -> R`](`FnMut`).
///
/// A handle cannot be cloned: two handles would borrow one state mutably.
#[verifier::reject_recursive_types(T)]
#[verifier::reject_recursive_types(R)]
pub struct RefFnMut<'a, T, R> {
    target: Box<dyn CalleeMut<T, R> + 'a>,
}

impl<'a, T, R> RefFnMut<'a, T, R> {
    /// The invariant of a handle: the state holds a value that the bound
    /// function reaches, from the value that it was bound with, by the calls
    /// of [`history`](Self::history). So the protocol admits the history.
    pub closed spec fn wf(&self) -> bool {
        self.target.wf() && (self.target.protocol().admits)(self.target.history())
    }

    /// The calls made through the handle so far, in order, each as the pair of
    /// its argument and its result.
    pub closed spec fn history(&self) -> Seq<(T, R)> {
        self.target.history()
    }

    /// What the binding allows. It is fixed when the handle is bound.
    pub closed spec fn protocol(&self) -> Protocol<T, R> {
        self.target.protocol()
    }

    /// Whether the handle may be called with `arg` next.
    pub open spec fn accepts(&self, arg: T) -> bool {
        (self.protocol().accepts)(self.history(), arg)
    }

    /// The handle stands for `F` bound with a state that held `start` when it
    /// was bound.
    pub open spec fn binds<F, D>(&self, start: D) -> bool where
        F: StaticRefMutFunction<'a, D, T, Output = R> + ?Sized,
     {
        self.wf() && self.protocol() == protocol_of::<F, D, T>(start)
    }

    /// Binds the function that `F` defines with `data`. No call has been made
    /// through the new handle.
    pub fn new<F, D>(data: &'a mut D) -> (handle: Self) where
        F: for<'b> StaticRefMutFunction<'b, D, T, Output = R> + ?Sized + 'a,
        T: 'a,
        R: 'a,

        ensures
            handle.binds::<F, D>(*old(data)),
            handle.history() == Seq::<(T, R)>::empty(),
    {
        let ghost start = *data;
        let bound = BoundMut::<'a, F, D, T, R>::new(data);
        let handle = RefFnMut { target: Box::new(bound) };
        assert(handle.target.wf());
        assert(handle.target.history() == Seq::<(T, R)>::empty());
        assert(handle.target.protocol() == protocol_of::<F, D, T>(start));
        assert(reaches::<F, D, T>(start, Seq::empty(), start));
        handle
    }

    /// Binds a callable as its own state. No call has been made through the
    /// new handle.
    pub fn from_fn_mut<F>(f: &'a mut F) -> (handle: Self) where F: FnMut(T) -> R, T: 'a, R: 'a
        ensures
            handle.binds::<F, F>(*old(f)),
            handle.history() == Seq::<(T, R)>::empty(),
    {
        Self::new::<F, F>(f)
    }

    /// Calls the bound function with the bound state and `arg`. The call is
    /// appended to the history, which is again one that the protocol admits;
    /// the protocol stays as it was.
    pub fn call_mut(&mut self, arg: T) -> (output: R)
        requires
            old(self).wf(),
            old(self).accepts(arg),
        ensures
            final(self).wf(),
            final(self).history() == old(self).history().push((arg, output)),
            final(self).protocol() == old(self).protocol(),
            (final(self).protocol().admits)(final(self).history()),
    {
        self.target.invoke(arg)
    }

    /// The history of a handle is one that its protocol admits.
    pub proof fn lemma_history_admitted(&self)
        requires
            self.wf(),
        ensures
            (self.protocol().admits)(self.history()),
    {
    }

    /// Calls in a row: where `F` is the function `step`, a handle that stands
    /// for `F` bound with a state that held `start` has given, call by call,
    /// the results that `step` gives when it is applied to `start` and to the
    /// arguments in turn, each time on the state that the application before
    /// left. It may be called next with every argument that `F` accepts on
    /// the state that these applications leave.
    pub proof fn lemma_calls_follow_run<F, D>(&self, step: spec_fn(D, T) -> (D, R), start: D) where
        F: StaticRefMutFunction<'a, D, T, Output = R> + ?Sized,

        requires
            self.binds::<F, D>(start),
            follows::<F, D, T>(step),
        ensures
            results(self.history()) == run(step, start, arguments(self.history())).1,
            forall|arg: T|
                F::accepts(run(step, start, arguments(self.history())).0, arg)
                    ==> #[trigger] self.accepts(arg),
    {
        lemma_protocol_follows_run::<F, D, T>(step, start, self.history());
    }

    /// Calls through a handle made from a callable: the handle may be called
    /// next with every argument that the callable requires no more than, and
    /// each call made so far gave a result that the callable ensures for its
    /// argument.
    pub proof fn lemma_calls_of_callable<F>(&self, callable: F) where F: FnMut(T) -> R
        requires
            self.binds::<F, F>(callable),
        ensures
            forall|arg: T| call_requires(callable, (arg,)) ==> #[trigger] self.accepts(arg),
            forall|i: int|
                0 <= i < self.history().len() ==> call_ensures(
                    callable,
                    ((#[trigger] self.history()[i]).0,),
                    self.history()[i].1,
                ),
    {
        lemma_callable_protocol::<F, T, R>(callable, self.history());
    }
}

impl<'a, F, T, R> From<&'a mut F> for RefFnMut<'a, T, R> where F: FnMut(T) -> R, T: 'a, R: 'a {
    /// As [`from_fn_mut`](RefFnMut::from_fn_mut).
    fn from(value: &'a mut F) -> (handle: Self)
        ensures
            handle.binds::<F, F>(*old(value)),
            handle.history() == Seq::<(T, R)>::empty(),
    {
        Self::from_fn_mut(value)
    }
}

/// What `from` gives is stated by its postcondition: a handle is no function
/// of the reference that it was made from.
impl<'a, F, T, R> vstd::std_specs::convert::FromSpecImpl<&'a mut F> for RefFnMut<'a, T, R> where F: FnMut(T) -> R, T: 'a, R: 'a {
    open spec fn obeys_from_spec() -> bool {
        false
    }

    open spec fn from_spec(value: &'a mut F) -> Self {
        arbitrary()
    }
}

} // verus!
