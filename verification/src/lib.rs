//! Type-erased references to functions of one argument.
//!
//! A handle is made by binding a borrowed state to a function that works on
//! it. The handle hides the type of the state and of the function: whoever
//! holds it sees the argument type `T` and the result type `R`, and can call
//! it. A handle never owns the state; it lives no longer than the borrow that
//! it was made from.
//!
//! | Type                       | Behaves like                         | State is borrowed | `Clone` | `Send` | `Sync` |
//! | -------------------------- | ------------------------------------ | ----------------- | ------- | ------ | ------ |
//! | [`RefFn<'a, T, R>`]        | `&'a dyn Fn(T) -> R`                 | shared            | Yes     | No     | No     |
//! | [`RefSyncFn<'a, T, R>`]    | `&'a (dyn Fn(T) -> R + Sync)`        | shared            | Yes     | Yes    | Yes    |
//! | [`RefFnMut<'a, T, R>`]     | `&'a mut dyn FnMut(T) -> R`          | mutably           | No      | No     | No     |
//! | [`RefSendFnMut<'a, T, R>`] | `&'a mut (dyn FnMut(T) -> R + Send)` | mutably           | No      | Yes    | No     |
//!
//! [`RefFn<'a, T, R>`]: `RefFn`
//! [`RefSyncFn<'a, T, R>`]: `RefSyncFn`
//! [`RefFnMut<'a, T, R>`]: `RefFnMut`
//! [`RefSendFnMut<'a, T, R>`]: `RefSendFnMut`
//!
//! A function is bound either from a type that defines it
//! ([`StaticRefFunction`], [`StaticRefMutFunction`]) or from any callable of
//! one argument, which is then its own state.
//!
//! # Examples
//!
//! Binding a function that a type defines:
//!
//! ```rust
//! use simple_ref_fn::{RefFn, StaticRefFunction};
//!
//! struct Add;
//!
//! impl StaticRefFunction<'_, u32, u32> for Add {
//!     type Output = u32;
//!
//!     fn call(data: &u32, arg: u32) -> Self::Output {
//!         data + arg
//!     }
//! }
//!
//! let data = 2;
//! let f: RefFn<u32, u32> = Add::bind(&data);
//!
//! assert_eq!(f.call(3), 5);
//! assert_eq!(f.call(5), 7);
//! ```
//!
//! Binding a closure that changes what it captured:
//!
//! ```rust
//! use simple_ref_fn::RefFnMut;
//!
//! let mut total = 0_u32;
//! let mut add = |arg: u32| {
//!     total += arg;
//!     total
//! };
//! let mut f: RefFnMut<u32, u32> = RefFnMut::from(&mut add);
//!
//! assert_eq!(f.call_mut(3), 3);
//! assert_eq!(f.call_mut(5), 8);
//! drop(f);
//!
//! assert_eq!(total, 8);
//! ```
//!
//! # What is proved
//!
//! A handle over a shared state is described by two predicates: the arguments
//! that it [accepts](RefFn::accepts) and the results that it
//! [yields](RefFn::yields) for each. Binding makes the handle accept what the
//! function accepts and yield only what the function yields; a call gives a
//! result that the handle yields; a clone is equal to the handle it was cloned
//! from.
//!
//! A handle over a mutably borrowed state is described by the
//! [history](RefFnMut::history) of the calls made through it and by a
//! [`Protocol`], which says, without naming the state, what may follow each
//! history. A call appends itself to the history and leaves the protocol as it
//! was, and the history is always one that the bound function can have made
//! from the state that it was bound with.

pub use self::protocol::Protocol;
pub use self::ref_fn::RefFn;
pub use self::ref_fn_mut::RefFnMut;
pub use self::ref_send_fn_mut::RefSendFnMut;
pub use self::ref_sync_fn::RefSyncFn;
pub use self::static_ref_function::StaticRefFunction;
pub use self::static_ref_mut_function::StaticRefMutFunction;
pub use self::static_ref_mut_function::StaticRefMutFunctionExt;

pub mod protocol;
mod ref_fn;
mod ref_fn_mut;
mod ref_send_fn_mut;
mod ref_sync_fn;
mod static_ref_function;
mod static_ref_mut_function;
