//! Two small combinators for values that are set up in a chain of calls.

use vstd::prelude::*;

verus! {

/// Hands a value to a function and returns what the function makes of it.
/// The call is allowed where the function accepts the value, and the result
/// is one that the function can return for it.
pub trait WithProcedure {
    fn with<F>(self, f: F) -> (r: Self) where F: (FnOnce(Self) -> Self) + 'static, Self: Sized
        requires
            f.requires((self,)),
        ensures
            f.ensures((self,), r),
    ;
}

/// Lets a function change a value in place and returns the changed value.
/// The call is allowed where the function accepts a reference to the value,
/// and the result is what the function can leave behind that reference.
pub trait WithMutProcedure {
    fn with_mut<F>(self, f: F) -> (r: Self) where F: FnOnce(&mut Self) + 'static
        requires
            forall|m: &mut Self| *m == self ==> f.requires((m,)),
        ensures
            exists|m: &mut Self| *m == self && *final(m) == r && f.ensures((m,), ()),
    ;
}

impl<T: Sized> WithProcedure for T {
    fn with<F>(self, f: F) -> (r: Self) where F: (FnOnce(Self) -> Self) + 'static {
        f(self)
    }
}

impl<T> WithMutProcedure for T {
    fn with_mut<F>(self, f: F) -> (r: Self) where F: FnOnce(&mut Self) + 'static {
        let mut this = self;
        f(&mut this);
        this
    }
}

} // verus!
