//! Owned values behind a uniform type-erased representation.
//!
//! [`ValueBox`] is the erased form: a heap-resident value of a type that is
//! only known dynamically.  Its contract layer speaks of [`content_id`],
//! the identity token of the type the content actually has; every checked
//! downcast either recovers that exact type or reports failure, never a
//! value of a different type.  [`Value`] is the typed view: a wrapper that
//! statically remembers its element type, so its accessors need no runtime
//! check at all.
use vstd::prelude::*;

use crate::typ::Type;

verus! {

/// An owned value of a type known only at runtime, kept on the heap behind
/// a uniform representation.  Opaque to the verifier; its contracts are
/// phrased over [`content_id`], the identity of the content's actual type.
#[verifier::external_body]
pub struct ValueBox {
    inner: Box<dyn core::any::Any + Send + Sync>,
}

/// The runtime identity token of the type that the boxed content actually
/// has.  It is fixed when the box is created and is a pure function of the
/// boxed value alone.
pub uninterp spec fn content_id(b: ValueBox) -> core::any::TypeId;

impl ValueBox {
    /// Relies on the unsizing of `Box<T>` to `Box<dyn Any + Send + Sync>`:
    /// the erased box owns exactly the given value.
    #[verifier::external_body]
    pub fn from_boxed<T: Type>(inner: Box<T>) -> (r: ValueBox)
    {
        ValueBox { inner }
    }

    /// Relies on `<dyn Any>::type_id`: returns the identity token of the
    /// content's actual type.
    #[verifier::external_body]
    pub fn type_id(&self) -> (r: core::any::TypeId)
        ensures
            r == content_id(*self),
    {
        self.inner.as_ref().type_id()
    }

    /// Relies on `Box::<dyn Any + Send + Sync>::downcast`: succeeds exactly
    /// when the content's actual type is `O`, and on failure returns the
    /// box unchanged.
    #[verifier::external_body]
    pub fn try_downcast<O: Type>(self) -> (r: Result<Box<O>, ValueBox>)
        ensures
            r matches Err(b) ==> b == self,
    {
        match self.inner.downcast::<O>() {
            Ok(res) => Ok(res),
            Err(inner) => Err(ValueBox { inner }),
        }
    }

    /// Relies on `<dyn Any>::downcast_ref`: a borrowed view of the content
    /// when its actual type is `O`, and nothing otherwise.
    #[verifier::external_body]
    pub fn try_downcast_ref<O: Type>(&self) -> Option<&O>
    {
        self.inner.downcast_ref::<O>()
    }

    /// Relies on `<dyn Any>::downcast_mut`: an exclusive view of the content
    /// when its actual type is `O`.  On failure the box is untouched; on
    /// success, writes through the view can change the content's value but
    /// never the content's type.
    #[verifier::external_body]
    pub fn try_downcast_mut<O: Type>(&mut self) -> (r: Option<&mut O>)
        ensures
            r is None ==> *final(self) == *old(self),
            r is Some ==> content_id(*final(self)) == content_id(*old(self)),
    {
        self.inner.downcast_mut::<O>()
    }
}

/// A typed view of an owned, heap-resident value: a thin wrapper that
/// statically remembers the element type, so recovering the value needs no
/// runtime type check.
pub struct Value<T> {
    inner: Box<T>,
}

impl<T: Type> Value<T> {
    /// Wraps an already boxed value.
    pub fn from_boxed(inner: Box<T>) -> (r: Self)
        ensures
            r@ == *inner,
    {
        Self { inner }
    }

    /// Recovers the owned value.
    pub fn downcast(self) -> (r: Box<T>)
        ensures
            *r == self@,
    {
        self.inner
    }

    /// Borrows the value.
    pub fn downcast_ref(&self) -> (r: &T)
        ensures
            *r == self@,
    {
        &*self.inner
    }

    /// Borrows the value exclusively.
    pub fn downcast_mut(&mut self) -> (r: &mut T)
        ensures
            *r == old(self)@,
            final(self)@ == *final(r),
    {
        &mut *self.inner
    }

    /// Erases the value: gives up the static type and hands the content
    /// over to the dynamically typed representation.
    pub fn into_raw(self) -> ValueBox
    {
        ValueBox::from_boxed(self.inner)
    }
}

impl<T: Type> View for Value<T> {
    type V = T;

    closed spec fn view(&self) -> T {
        *self.inner
    }
}

} // verus!
