//! Non-owning handles around the addresses of native objects.
//!
//! A handle holds the address of a native object as an integer and never
//! releases what it points at: retaining and releasing are explicit native
//! calls. Addresses travel to and from the native layer as `usize`.
use vstd::prelude::*;
use core::marker::PhantomData;
use crate::errors::{OpenCLAPIError, RuntimeError, ToLibraryError};
use crate::helpers::HelperResult;

verus! {

/// `libc::c_void` marks handles to opaque native objects.
#[verifier::external_type_specification]
#[verifier::external_body]
pub struct ExCVoid(libc::c_void);

/// A read-only address of a value of type `T`, possibly null.
#[derive(Debug)]
pub struct WrappedPointer<T> {
    addr: usize,
    marker: PhantomData<T>,
}

impl<T> View for WrappedPointer<T> {
    type V = usize;

    closed spec fn view(&self) -> usize {
        self.addr
    }
}

impl<T> WrappedPointer<T> {
    /// The handle of a raw address given as a native `intptr_t`.
    pub fn from_raw(x: isize) -> (r: Self)
        ensures
            r@ == x as usize,
    {
        WrappedPointer { addr: x as usize, marker: PhantomData }
    }

    /// The null handle.
    pub fn null() -> (r: Self)
        ensures
            r@ == 0,
    {
        WrappedPointer { addr: 0, marker: PhantomData }
    }

    /// The address held.
    pub fn unwrap(&self) -> (r: usize)
        ensures
            r == self@,
    {
        self.addr
    }
}

impl<T> PartialEq for WrappedPointer<T> {
    fn eq(&self, other: &Self) -> (r: bool) {
        self.addr == other.addr
    }
}

impl<T> vstd::std_specs::cmp::PartialEqSpecImpl for WrappedPointer<T> {
    open spec fn obeys_eq_spec() -> bool {
        true
    }

    open spec fn eq_spec(&self, other: &Self) -> bool {
        self@ == other@
    }
}

/// A mutable address of a value of type `T`; handles to native objects are of
/// this kind.
#[derive(Debug)]
pub struct WrappedMutablePointer<T> {
    addr: usize,
    marker: PhantomData<T>,
}

impl<T> View for WrappedMutablePointer<T> {
    type V = usize;

    closed spec fn view(&self) -> usize {
        self.addr
    }
}

impl<T> WrappedMutablePointer<T> {
    /// The handle of a raw address given as a native `intptr_t`.
    pub fn from_raw(x: isize) -> (r: Self)
        ensures
            r@ == x as usize,
    {
        WrappedMutablePointer { addr: x as usize, marker: PhantomData }
    }

    /// Wraps an address that a native call at `fn_name` returned; a null
    /// address is refused with a null-pointer error naming `fn_name`.
    pub fn from_ptr(x: usize, fn_name: &'static str) -> (r: HelperResult<Self>)
        ensures
            x == 0 ==> r == Err::<Self, OpenCLAPIError>(
                OpenCLAPIError::RuntimeError(RuntimeError::NullPointer(fn_name)),
            ),
            x != 0 ==> (r matches Ok(h) && h@ == x),
    {
        if x == 0 {
            Err(RuntimeError::NullPointer(fn_name).to_error())
        } else {
            Ok(WrappedMutablePointer { addr: x, marker: PhantomData })
        }
    }

    /// The null handle.
    pub fn null() -> (r: Self)
        ensures
            r@ == 0,
    {
        WrappedMutablePointer { addr: 0, marker: PhantomData }
    }

    /// The address held.
    pub fn unwrap(&self) -> (r: usize)
        ensures
            r == self@,
    {
        self.addr
    }
}

impl<T> PartialEq for WrappedMutablePointer<T> {
    fn eq(&self, other: &Self) -> (r: bool) {
        self.addr == other.addr
    }
}

impl<T> vstd::std_specs::cmp::PartialEqSpecImpl for WrappedMutablePointer<T> {
    open spec fn obeys_eq_spec() -> bool {
        true
    }

    open spec fn eq_spec(&self, other: &Self) -> bool {
        self@ == other@
    }
}

pub type WrapPtr<T> = WrappedPointer<T>;

pub type WrapMutPtr<T> = WrappedMutablePointer<T>;

pub type NullMutPtr = WrappedMutablePointer<libc::c_void>;

pub type PlatformPtr = NullMutPtr;

pub type DevicePtr = NullMutPtr;

pub type ContextPtr = NullMutPtr;

pub type QueuePtr = NullMutPtr;

pub type MemPtr = NullMutPtr;

pub type ProgramPtr = NullMutPtr;

pub type KernelPtr = NullMutPtr;

pub type EventPtr = NullMutPtr;

pub type SamplerPtr = NullMutPtr;

pub type SVMPtr = NullMutPtr;

} // verus!
