use crate::ref_fn_mut::RefFnMut;
use crate::ref_send_fn_mut::RefSendFnMut;
use vstd::prelude::*;

verus! {

/// A function of a mutably borrowed state and one argument that is defined on
/// a type, not carried by a value: binding it with a state gives a handle
/// whose type names neither the state nor the function.
///
/// An implementation says with `accepts` and `yields` what its `call_mut`
/// requires and ensures. One that says nothing may be called on everything and
/// promises nothing of its result or of the state that it leaves.
///
/// A handle calls the function once for each call made through it, each time
/// on a fresh borrow of the state, so the function is defined for every
/// borrow.
pub trait StaticRefMutFunction<'a, D, T> {
    /// Return type of the defined function.
    type Output;

    /// Whether the function may be called with `arg` when the state holds
    /// `data`.
    open spec fn accepts(data: D, arg: T) -> bool {
        true
    }

    /// Whether the function, called with `arg` when the state holds `data`,
    /// may give `output` and leave `next` in the state.
    open spec fn yields(data: D, arg: T, next: D, output: Self::Output) -> bool {
        true
    }

    /// Function definition.
    fn call_mut(data: &mut D, arg: T) -> (output: Self::Output)
        requires
            Self::accepts(*old(data), arg),
        ensures
            Self::yields(*old(data), arg, *final(data), output),
    ;
}

/// The helpers that bind a [`StaticRefMutFunction`] with a state. Every such
/// function has them.
pub trait StaticRefMutFunctionExt<'a, D, T>: StaticRefMutFunction<'a, D, T> {
    /// Binds the defined function with `data` into a [`RefFnMut`] through
    /// which no call has been made.
    fn bind(data: &'a mut D) -> (handle: RefFnMut<'a, T, Self::Output>)
        ensures
            handle.binds::<Self, D>(*old(data)),
            handle.history() == Seq::<(T, Self::Output)>::empty(),
    ;

    /// Binds the defined function with `data` into a [`RefSendFnMut`] through
    /// which no call has been made. The state must be one that may be sent to
    /// another thread.
    fn bind_send(data: &'a mut D) -> (handle: RefSendFnMut<'a, T, Self::Output>) where D: Send
        ensures
            handle.binds::<Self, D>(*old(data)),
            handle.history() == Seq::<(T, Self::Output)>::empty(),
    ;
}

impl<'a, D, T, R, F> StaticRefMutFunctionExt<'a, D, T> for F where
    F: for<'b> StaticRefMutFunction<'b, D, T, Output = R> + ?Sized + 'a,
    T: 'a,
    R: 'a,
 {
    fn bind(data: &'a mut D) -> (handle: RefFnMut<'a, T, R>) {
        RefFnMut::new::<F, D>(data)
    }

    fn bind_send(data: &'a mut D) -> (handle: RefSendFnMut<'a, T, R>) where D: Send {
        RefSendFnMut::new::<F, D>(data)
    }
}

/// A callable of one argument is its own state: the defined function calls it.
/// It accepts what the callable requires and yields what the callable ensures.
/// What a callable requires and ensures does not change from one call to the
/// next, so as a state it stays what it was.
impl<'a, T, F, R> StaticRefMutFunction<'a, F, T> for F where F: FnMut(T) -> R {
    type Output = R;

    open spec fn accepts(data: F, arg: T) -> bool {
        call_requires(data, (arg,))
    }

    open spec fn yields(data: F, arg: T, next: F, output: R) -> bool {
        call_ensures(data, (arg,), output) && next == data
    }

    fn call_mut(data: &mut F, arg: T) -> (output: R) {
        (*data)(arg)
    }
}

} // verus!
