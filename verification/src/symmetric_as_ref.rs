use vstd::prelude::*;

verus! {

/// Read access to a `T`, uniform over holding the value itself or a
/// reference to it.
pub trait SymmetricAsRef<T> {
    /// The value being granted access to.
    spec fn spec_target(&self) -> T;

    /// Borrow the underlying value.
    fn symmetric_as_ref(&self) -> (r: &T)
        ensures
            *r == self.spec_target(),
    ;
}

/// Write access to a `T`, uniform over holding the value itself or a
/// mutable reference to it.
pub trait SymmetricAsMut<T>: SymmetricAsRef<T> {
    /// Borrow the underlying value mutably.
    fn symmetric_as_mut(&mut self) -> (r: &mut T)
        ensures
            *r == (*old(self)).spec_target(),
            (*final(self)).spec_target() == *final(r),
    ;
}

impl<T> SymmetricAsRef<T> for T {
    open spec fn spec_target(&self) -> T {
        *self
    }

    fn symmetric_as_ref(&self) -> (r: &T) {
        self
    }
}

impl<'a, T> SymmetricAsRef<T> for &'a T {
    open spec fn spec_target(&self) -> T {
        **self
    }

    fn symmetric_as_ref(&self) -> (r: &T) {
        *self
    }
}

impl<T> SymmetricAsMut<T> for T {
    fn symmetric_as_mut(&mut self) -> (r: &mut T) {
        self
    }
}

impl<'a, T> SymmetricAsRef<T> for &'a mut T {
    open spec fn spec_target(&self) -> T {
        **self
    }

    fn symmetric_as_ref(&self) -> (r: &T) {
        &**self
    }
}

impl<'a, T> SymmetricAsMut<T> for &'a mut T {
    fn symmetric_as_mut(&mut self) -> (r: &mut T) {
        &mut **self
    }
}

} // verus!
