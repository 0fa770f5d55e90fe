//! The size-then-fetch protocol of native queries and the wrapping of
//! addresses that native calls hand back.
//!
//! Native calls are passed in as closures, so that the protocol is the same
//! whether the closures reach the driver or stand in for it.
use vstd::prelude::*;
use crate::consts::{cl_int, cl_uint, CL_SUCCESS};
use crate::errors::{OpenCLAPIError, RuntimeError};
use crate::helpers::{status_error, status_result, status_update, APIResult};
use crate::wrappers::{NullMutPtr, WrappedMutablePointer};

verus! {

/// What the size-then-fetch protocol gives once the probe reported status
/// `probed` and byte size `size`: the probe's failure, an empty list for size
/// zero, and otherwise the status-checked elements of one fetch of
/// `size / elem_size` elements.
pub open spec fn array_fetch_outcome<T, F: FnOnce(usize, usize) -> (cl_int, Vec<T>)>(
    probed: cl_int,
    size: usize,
    elem_size: usize,
    func: &'static str,
    fetch: F,
    r: APIResult<Vec<T>>,
) -> bool {
    if probed != CL_SUCCESS {
        r == Err::<Vec<T>, OpenCLAPIError>(status_error(probed, func))
    } else if size == 0 {
        r matches Ok(v) && v@.len() == 0
    } else {
        exists|fetched: cl_int, data: Vec<T>|
            #[trigger] fetch.ensures((size, (size / elem_size) as usize), (fetched, data)) && r
                == status_result(fetched, func, data)
    }
}

/// Runs a variable-length native query: `probe` reports the status and the
/// byte size of the value; `fetch(size, count)` fills `count` elements of
/// `elem_size` bytes. A zero size gives an empty list and `fetch` is not
/// called.
pub fn fetch_info_array<T, P, F>(probe: P, fetch: F, elem_size: usize, func: &'static str) -> (r:
    APIResult<Vec<T>>) where P: FnOnce() -> (cl_int, usize), F: FnOnce(usize, usize) -> (cl_int, Vec<T>)
    requires
        elem_size > 0,
        probe.requires(()),
        forall|size: usize, count: usize| fetch.requires((size, count)),
    ensures
        exists|probed: cl_int, size: usize|
            #[trigger] probe.ensures((), (probed, size)) && array_fetch_outcome(
                probed,
                size,
                elem_size,
                func,
                fetch,
                r,
            ),
{
    let (probed, size) = probe();
    if probed != CL_SUCCESS {
        return status_update(probed, func, Vec::new());
    }
    if size == 0 {
        return Ok(Vec::new());
    }
    let count = size / elem_size;
    let (fetched, data) = fetch(size, count);
    let r = status_update(fetched, func, data);
    assert(fetch.ensures((size, (size / elem_size) as usize), (fetched, data)));
    r
}

/// `r` holds one handle per address, in order, when no address is null, and is
/// the null-pointer error of `func` otherwise.
pub open spec fn handles_outcome(addrs: Seq<usize>, func: &'static str, r: APIResult<Vec<NullMutPtr>>) -> bool {
    if exists|i: int| 0 <= i < addrs.len() && addrs[i] == 0 {
        r == Err::<Vec<NullMutPtr>, OpenCLAPIError>(
            OpenCLAPIError::RuntimeError(RuntimeError::NullPointer(func)),
        )
    } else {
        r matches Ok(v) && v@.len() == addrs.len() && forall|i: int|
            0 <= i < addrs.len() ==> (#[trigger] v@[i])@ == addrs[i]
    }
}

/// Wraps the addresses that a native call at `func` returned, in order;
/// a null address fails the whole list.
pub fn handles_from_addresses(addrs: &Vec<usize>, func: &'static str) -> (r: APIResult<Vec<NullMutPtr>>)
    ensures
        handles_outcome(addrs@, func, r),
{
    let mut handles: Vec<NullMutPtr> = Vec::new();
    let mut i: usize = 0;
    while i < addrs.len()
        invariant
            i <= addrs.len(),
            handles@.len() == i,
            forall|j: int| 0 <= j < i ==> addrs@[j] != 0,
            forall|j: int| 0 <= j < i ==> (#[trigger] handles@[j])@ == addrs@[j],
        decreases addrs.len() - i,
    {
        match WrappedMutablePointer::from_ptr(addrs[i], func) {
            Ok(h) => handles.push(h),
            Err(e) => {
                return Err(e);
            },
        }
        i += 1;
    }
    Ok(handles)
}

/// What a counted list query gives once the count probe reported status
/// `probed` and `count` elements: the probe's failure, an empty list for no
/// elements, and otherwise the status-checked elements of one fetch of
/// `count` elements.
pub open spec fn counted_list_outcome<T, F: FnOnce(cl_uint) -> (cl_int, Vec<T>)>(
    probed: cl_int,
    count: cl_uint,
    func: &'static str,
    fetch: F,
    r: APIResult<Vec<T>>,
) -> bool {
    if probed != CL_SUCCESS {
        r == Err::<Vec<T>, OpenCLAPIError>(status_error(probed, func))
    } else if count == 0 {
        r matches Ok(v) && v@.len() == 0
    } else {
        exists|fetched: cl_int, data: Vec<T>|
            #[trigger] fetch.ensures((count,), (fetched, data)) && r == status_result(
                fetched,
                func,
                data,
            )
    }
}

/// Runs a counted list query: `probe` reports the status and the number of
/// elements; `fetch(count)` returns them. No elements gives an empty list and
/// `fetch` is not called.
pub fn fetch_counted_list<T, P, F>(probe: P, fetch: F, func: &'static str) -> (r: APIResult<Vec<T>>) where
    P: FnOnce() -> (cl_int, cl_uint),
    F: FnOnce(cl_uint) -> (cl_int, Vec<T>),
    requires
        probe.requires(()),
        forall|count: cl_uint| fetch.requires((count,)),
    ensures
        exists|probed: cl_int, count: cl_uint|
            #[trigger] probe.ensures((), (probed, count)) && counted_list_outcome(
                probed,
                count,
                func,
                fetch,
                r,
            ),
{
    let (probed, count) = probe();
    if probed != CL_SUCCESS {
        return status_update(probed, func, Vec::new());
    }
    if count == 0 {
        return Ok(Vec::new());
    }
    let (fetched, data) = fetch(count);
    assert(fetch.ensures((count,), (fetched, data)));
    status_update(fetched, func, data)
}

/// Lists native objects: `probe` reports the status and the number of
/// objects; `fetch(count)` returns their addresses, each of which becomes a
/// handle. No objects gives an empty list and `fetch` is not called.
pub fn fetch_object_list<P, F>(probe: P, fetch: F, func: &'static str) -> (r: APIResult<Vec<NullMutPtr>>) where
    P: FnOnce() -> (cl_int, cl_uint),
    F: FnOnce(cl_uint) -> (cl_int, Vec<usize>),
    requires
        probe.requires(()),
        forall|count: cl_uint| fetch.requires((count,)),
    ensures
        exists|probed: cl_int, count: cl_uint, listed: APIResult<Vec<usize>>|
            probe.ensures((), (probed, count)) && #[trigger] counted_list_outcome(
                probed,
                count,
                func,
                fetch,
                listed,
            ) && match listed {
                Ok(addrs) => handles_outcome(addrs@, func, r),
                Err(e) => r == Err::<Vec<NullMutPtr>, OpenCLAPIError>(e),
            },
{
    let listed = fetch_counted_list(probe, fetch, func);
    match listed {
        Ok(addrs) => handles_from_addresses(&addrs, func),
        Err(e) => Err(e),
    }
}

/// Folds the outcome of a native "create" call at `func` into one result: a
/// null address is a null-pointer error, otherwise a failing status is a
/// status error, and otherwise the address becomes a handle.
pub fn created_handle<T>(status_code: cl_int, addr: usize, func: &'static str) -> (r: APIResult<
    WrappedMutablePointer<T>,
>)
    ensures
        addr == 0 ==> r == Err::<WrappedMutablePointer<T>, OpenCLAPIError>(
            OpenCLAPIError::RuntimeError(RuntimeError::NullPointer(func)),
        ),
        addr != 0 && status_code != CL_SUCCESS ==> r == Err::<
            WrappedMutablePointer<T>,
            OpenCLAPIError,
        >(status_error(status_code, func)),
        addr != 0 && status_code == CL_SUCCESS ==> (r matches Ok(h) && h@ == addr),
{
    let handle = WrappedMutablePointer::from_ptr(addr, func)?;
    status_update(status_code, func, handle)
}

} // verus!
