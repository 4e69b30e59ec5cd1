//! Handles to objects that live outside the process's own data: compositor
//! objects, input devices and sound streams. A handle is the object's address,
//! zero when there is no object; the type parameter says what it refers to.
use vstd::prelude::*;

verus! {

/// The address of an object of type `T`, or zero for none.
pub struct Handle<T> {
    pub addr: usize,
    pub kind: core::marker::PhantomData<T>,
}

impl<T> Clone for Handle<T> {
    fn clone(&self) -> (r: Handle<T>)
        ensures
            r.addr == self.addr,
    {
        Handle { addr: self.addr, kind: core::marker::PhantomData }
    }
}

impl<T> Copy for Handle<T> {}

impl<T> Handle<T> {
    /// No object.
    pub fn null() -> (h: Handle<T>)
        ensures
            h.addr == 0,
    {
        Handle { addr: 0, kind: core::marker::PhantomData }
    }

    /// The object at `addr`.
    pub fn from_address(addr: usize) -> (h: Handle<T>)
        ensures
            h.addr == addr,
    {
        Handle { addr, kind: core::marker::PhantomData }
    }

    /// The object's address.
    pub fn address(&self) -> (a: usize)
        ensures
            a == self.addr,
    {
        self.addr
    }

    /// Whether there is no object.
    pub fn is_null(&self) -> (r: bool)
        ensures
            r == (self.addr == 0),
    {
        self.addr == 0
    }
}

} // verus!
