use crate::ref_fn::Bound;
use crate::static_ref_function::StaticRefFunction;
use std::sync::Arc;
use vstd::prelude::*;

verus! {

/// What a handle keeps of a binding that may be sent to other threads and
/// shared with them.
pub(crate) trait SyncCallee<T, R>: Send + Sync {
    spec fn accepts(&self, arg: T) -> bool;

    spec fn yields(&self, arg: T, output: R) -> bool;

    fn invoke(&self, arg: T) -> (output: R)
        requires
            self.accepts(arg),
        ensures
            self.yields(arg, output),
    ;
}

impl<'a, D: Sync, T, R, C: Fn(&'a D, T) -> R + Send + Sync> SyncCallee<T, R> for Bound<'a, D, C> {
    open spec fn accepts(&self, arg: T) -> bool {
        call_requires(self.call, (self.data, arg))
    }

    open spec fn yields(&self, arg: T, output: R) -> bool {
        call_ensures(self.call, (self.data, arg), output)
    }

    fn invoke(&self, arg: T) -> (output: R) {
        (self.call)(self.data, arg)
    }
}

/// `Arc::clone`, which gives a second pointer to the allocation that `target`
/// points to. Both pointers reach the same binding, so the copy is equal to
/// `target`.
#[verifier::external_body]
fn share<'a, T, R>(target: &Arc<Box<dyn SyncCallee<T, R> + 'a>>) -> (copy: Arc<
    Box<dyn SyncCallee<T, R> + 'a>,
>)
    ensures
        copy == *target,
{
    Arc::clone(target)
}

/// A reference to a function of one argument over a shared state that may be
/// shared between threads. The types of the state and of the function are
/// hidden. It behaves like a [`&(dyn Fn(T) -> R + Sync)`](`Fn`): it may be
/// sent to another thread and called from several threads at once.
#[verifier::reject_recursive_types(T)]
#[verifier::reject_recursive_types(R)]
pub struct RefSyncFn<'a, T, R> {
    target: Arc<Box<dyn SyncCallee<T, R> + 'a>>,
}

impl<'a, T, R> RefSyncFn<'a, T, R> {
    /// Whether the handle may be called with `arg`.
    pub closed spec fn accepts(&self, arg: T) -> bool {
        self.target.accepts(arg)
    }

    /// Whether `output` is a result that a call with `arg` may give.
    pub closed spec fn yields(&self, arg: T, output: R) -> bool {
        self.target.yields(arg, output)
    }

    /// The handle stands for `F` bound with `data`: it may be called with
    /// every argument that `F` accepts on `data`, and gives only results that
    /// `F` yields on `data`.
    pub open spec fn binds<F, D>(&self, data: &D) -> bool where
        F: StaticRefFunction<'a, D, T, Output = R> + ?Sized,
     {
        &&& forall|arg: T| F::accepts(data, arg) ==> #[trigger] self.accepts(arg)
        &&& forall|arg: T, output: R| #[trigger]
            self.yields(arg, output) ==> F::yields(data, arg, output)
    }

    /// Hides the types of `data` and `call` behind a handle that accepts what
    /// `call` requires on `data` and yields what `call` ensures on `data`.
    pub(crate) fn bind_with<D, C>(data: &'a D, call: C) -> (handle: Self) where
        D: Sync,
        C: Fn(&'a D, T) -> R + Send + Sync + 'a,

        ensures
            forall|arg: T| #[trigger] handle.accepts(arg) == call_requires(call, (data, arg)),
            forall|arg: T, output: R| #[trigger]
                handle.yields(arg, output) == call_ensures(call, (data, arg), output),
    {
        let bound = Bound { data, call };
        let erased: Box<dyn SyncCallee<T, R> + 'a> = Box::new(bound);
        let target = Arc::new(erased);
        assert(forall|arg: T| target.accepts(arg) == SyncCallee::accepts(&bound, arg));
        assert(forall|arg: T, output: R|
            target.yields(arg, output) == SyncCallee::yields(&bound, arg, output));
        RefSyncFn { target }
    }

    /// Binds the function that `F` defines with `data`. The state must be one
    /// that may be shared between threads.
    pub fn new<F, D>(data: &'a D) -> (handle: Self) where
        F: StaticRefFunction<'a, D, T, Output = R> + ?Sized + 'a,
        D: Sync,
        T: 'a,

        ensures
            handle.binds::<F, D>(data),
    {
        Self::bind_with(data, F::call)
    }

    /// Binds a callable as its own state: the handle accepts what `f`
    /// requires and yields only what `f` ensures. The callable must be one
    /// that may be shared between threads.
    pub fn from_fn<F>(f: &'a F) -> (handle: Self) where F: Fn(T) -> R + Sync, T: 'a
        ensures
            handle.binds::<F, F>(f),
    {
        Self::new::<F, F>(f)
    }

    /// Calls the bound function with the bound state and `arg`.
    pub fn call(&self, arg: T) -> (output: R)
        requires
            self.accepts(arg),
        ensures
            self.yields(arg, output),
    {
        self.target.invoke(arg)
    }

    /// Reading does not change what is read: where `F` is the function `f`,
    /// a handle that stands for `F` bound with `data` gives the value of `f`
    /// at `data` and the argument on every call, so two calls with one
    /// argument give one value.
    pub proof fn lemma_call_gives_value<F, D>(
        &self,
        data: &D,
        f: spec_fn(D, T) -> R,
        arg: T,
        first: R,
        second: R,
    ) where F: StaticRefFunction<'a, D, T, Output = R> + ?Sized
        requires
            self.binds::<F, D>(data),
            forall|arg: T, output: R| #[trigger]
                F::yields(data, arg, output) ==> output == f(*data, arg),
            self.yields(arg, first),
            self.yields(arg, second),
        ensures
            first == f(*data, arg),
            second == first,
    {
    }

    /// A handle that stands for one binding stands for every binding that
    /// accepts no more and yields no less. So a handle made from a callable
    /// stands for each function which, bound with its own state, accepts at
    /// most what the callable requires and yields at least what the callable
    /// ensures: it cannot be told from a handle made by binding that
    /// function.
    pub proof fn lemma_binds_matching<G, E, F, D>(&self, state: &E, data: &D) where
        G: StaticRefFunction<'a, E, T, Output = R> + ?Sized,
        F: StaticRefFunction<'a, D, T, Output = R> + ?Sized,

        requires
            self.binds::<G, E>(state),
            forall|arg: T| #[trigger] F::accepts(data, arg) ==> G::accepts(state, arg),
            forall|arg: T, output: R| #[trigger]
                G::yields(state, arg, output) ==> F::yields(data, arg, output),
        ensures
            self.binds::<F, D>(data),
    {
    }
}

/// A clone is the handle once more: it accepts and yields what the handle
/// does. The bound state is shared, not copied.
impl<'a, T, R> Clone for RefSyncFn<'a, T, R> {
    fn clone(&self) -> (copy: Self)
        ensures
            copy == *self,
            forall|arg: T| copy.accepts(arg) == self.accepts(arg),
            forall|arg: T, output: R| copy.yields(arg, output) == self.yields(arg, output),
    {
        RefSyncFn { target: share(&self.target) }
    }
}

impl<'a, F, T, R> From<&'a F> for RefSyncFn<'a, T, R> where F: Fn(T) -> R + Sync, T: 'a {
    /// As [`from_fn`](RefSyncFn::from_fn).
    fn from(value: &'a F) -> (handle: Self)
        ensures
            handle.binds::<F, F>(value),
    {
        Self::from_fn(value)
    }
}

/// What `from` gives is stated by its postcondition: a handle is no function
/// of the reference that it was made from.
impl<'a, F, T, R> vstd::std_specs::convert::FromSpecImpl<&'a F> for RefSyncFn<'a, T, R> where F: Fn(T) -> R + Sync, T: 'a {
    open spec fn obeys_from_spec() -> bool {
        false
    }

    open spec fn from_spec(value: &'a F) -> Self {
        arbitrary()
    }
}

} // verus!
