use crate::ref_fn::RefFn;
use crate::ref_sync_fn::RefSyncFn;
use vstd::prelude::*;

verus! {

/// A function of a borrowed state and one argument that is defined on a type,
/// not carried by a value: binding it with a state gives a handle whose type
/// names neither the state nor the function.
///
/// An implementation says with `accepts` and `yields` what its `call` requires
/// and ensures. One that says nothing may be called on everything and promises
/// nothing of its result.
pub trait StaticRefFunction<'a, D, T> {
    /// Return type of the defined function.
    type Output;

    /// Whether the function may be called with `arg` on the state `data`.
    open spec fn accepts(data: &D, arg: T) -> bool {
        true
    }

    /// Whether `output` is a result that the function may give for `arg` on
    /// the state `data`.
    open spec fn yields(data: &D, arg: T, output: Self::Output) -> bool {
        true
    }

    /// Function definition.
    fn call(data: &'a D, arg: T) -> (output: Self::Output)
        requires
            Self::accepts(data, arg),
        ensures
            Self::yields(data, arg, output),
    ;

    /// Binds the defined function with `data` into a [`RefFn`]: the handle
    /// accepts what the function accepts on `data` and yields only what the
    /// function yields on `data`.
    fn bind(data: &'a D) -> (handle: RefFn<'a, T, Self::Output>) where Self: 'a, T: 'a
        ensures
            forall|arg: T| Self::accepts(data, arg) ==> #[trigger] handle.accepts(arg),
            forall|arg: T, output: Self::Output| #[trigger]
                handle.yields(arg, output) ==> Self::yields(data, arg, output),
    {
        RefFn::bind_with(data, Self::call)
    }

    /// Binds the defined function with `data` into a [`RefSyncFn`], which asks
    /// that the state may be shared between threads: the handle accepts what
    /// the function accepts on `data` and yields only what the function yields
    /// on `data`.
    fn bind_sync(data: &'a D) -> (handle: RefSyncFn<'a, T, Self::Output>) where
        Self: 'a,
        T: 'a,
        D: Sync,

        ensures
            forall|arg: T| Self::accepts(data, arg) ==> #[trigger] handle.accepts(arg),
            forall|arg: T, output: Self::Output| #[trigger]
                handle.yields(arg, output) ==> Self::yields(data, arg, output),
    {
        RefSyncFn::bind_with(data, Self::call)
    }
}

/// A callable of one argument is its own state: the defined function calls it.
/// It accepts what the callable requires and yields what the callable ensures.
impl<'a, T, F, R> StaticRefFunction<'a, F, T> for F where F: Fn(T) -> R {
    type Output = R;

    open spec fn accepts(data: &F, arg: T) -> bool {
        call_requires(*data, (arg,))
    }

    open spec fn yields(data: &F, arg: T, output: R) -> bool {
        call_ensures(*data, (arg,), output)
    }

    fn call(data: &'a F, arg: T) -> (output: R) {
        (*data)(arg)
    }
}

} // verus!
