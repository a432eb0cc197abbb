//! Calling a record, and calling a method of a record.
//!
//! The call itself runs inside the host runtime. The methods here take the
//! address that the call returned, and see to it that the references of the
//! arguments are dropped exactly once, whatever the outcome.

use crate::err::{fetched, PyErr, PyErrKind, PyResult};
use crate::ffi::attribute::{attribute_error, PyObject_GetAttrString};
use crate::ffi::foreign::ForeignCall;
use crate::ffi::object::{Host, PyErrState, NULL};
use crate::ffi::refcount::{Py_DECREF, Py_INCREF, Py_XDECREF};
use crate::handle::{adopt, adoptable, release, Owned};
use crate::types::any::PyAny;
use vstd::prelude::*;

verus! {

/// 1 where `b` is the address `p` and `p` is not null, else 0.
pub open spec fn one_if(b: usize, p: usize) -> int {
    if p != NULL && b == p {
        1
    } else {
        0
    }
}

/// What a call changes in the runtime's table: the record at `args` loses
/// the reference that the arguments' handle owned, the record at `rv` has a
/// reference that a handle owns now, and nothing else differs.
pub open spec fn call_effect(new: &Host, old: &Host, args: usize, rv: usize) -> bool {
    &&& new.count() == old.count()
    &&& new.extends(old)
    &&& forall|b: usize|
        #![trigger new.header(b)]
        #![trigger new.held(b)]
        old.valid(b) ==> {
            &&& new.refcnt(b) == old.refcnt(b) - one_if(b, args)
            &&& new.held(b) == old.held(b) - one_if(b, args) + one_if(b, rv)
        }
}

/// What a call returns, where the runtime returned the address `rv`: an
/// owned handle to the record at `rv`, or the error that was `pending` where
/// `rv` is null.
pub open spec fn call_result(
    new: &Host,
    pending: Option<PyErrState>,
    rv: usize,
    r: PyResult<Owned>,
) -> bool {
    if rv == NULL {
        &&& r == Err::<Owned, PyErr>(PyErr { kind: PyErrKind::NullHandle, state: fetched(pending) })
        &&& new.pending() is None
    } else {
        &&& r is Ok
        &&& r->Ok_0.addr() == rv
        &&& r->Ok_0.wf(new)
        &&& new.pending() == pending
    }
}

/// The address behind an optional view, or null.
pub open spec fn addr_or_null(kwargs: Option<&PyAny<'_>>) -> usize {
    match kwargs {
        Some(k) => k.addr(),
        None => NULL,
    }
}

impl<'py> PyAny<'py> {
    /// The call that calls the record with the positional arguments `args`
    /// and the keyword arguments `kwargs`.
    pub fn ask_call(&self, args: &Owned, kwargs: Option<&PyAny<'_>>) -> (call: ForeignCall)
        ensures
            call == (ForeignCall::PyObject_Call {
                callable: self.addr(),
                args: args.addr(),
                kwargs: addr_or_null(kwargs),
            }),
    {
        let kw = match kwargs {
            Some(k) => k.as_ptr(),
            None => NULL,
        };
        ForeignCall::PyObject_Call { callable: self.as_ptr(), args: args.as_ptr(), kwargs: kw }
    }

    /// The call that calls the method `name` of the record with the
    /// positional arguments `args` and the keyword arguments `kwargs`; none
    /// where the record has no attribute `name`. Looking the method up
    /// changes no count.
    pub fn ask_call_method(
        &self,
        host: &Host,
        name: &str,
        args: &Owned,
        kwargs: Option<&PyAny<'_>>,
    ) -> (call: Option<ForeignCall>)
        requires
            host.wf(),
        ensures
            call == if host.attr(self.addr(), name@) == NULL {
                None
            } else {
                Some(
                    ForeignCall::PyObject_Call {
                        callable: host.attr(self.addr(), name@),
                        args: args.addr(),
                        kwargs: addr_or_null(kwargs),
                    },
                )
            },
    {
        let method = host.find(self.as_ptr(), &name.to_owned());
        if method == NULL {
            None
        } else {
            let kw = match kwargs {
                Some(k) => k.as_ptr(),
                None => NULL,
            };
            Some(ForeignCall::PyObject_Call { callable: method, args: args.as_ptr(), kwargs: kw })
        }
    }

    /// The call that calls the method `name` of the record without
    /// arguments; none where the record has no attribute `name`.
    pub fn ask_call_method0(&self, host: &Host, name: &str) -> (call: Option<ForeignCall>)
        requires
            host.wf(),
        ensures
            call == if host.attr(self.addr(), name@) == NULL {
                None
            } else {
                Some(ForeignCall::PyObject_CallNoArgs { func: host.attr(self.addr(), name@) })
            },
    {
        let method = host.find(self.as_ptr(), &name.to_owned());
        if method == NULL {
            None
        } else {
            Some(ForeignCall::PyObject_CallNoArgs { func: method })
        }
    }

    /// The outcome of calling the record with the positional arguments
    /// `args` and the keyword arguments `kwargs`, given the address
    /// `return_value` that the runtime returned for `ask_call`: an owned handle to it, or the
    /// pending error where it is null. The reference that `args` owned is
    /// dropped either way; that of `kwargs` stays with its owner.
    pub fn call(
        &self,
        host: &mut Host,
        args: Owned,
        kwargs: Option<&PyAny<'_>>,
        return_value: usize,
    ) -> (r: PyResult<Owned>)
        requires
            old(host).wf(),
            args.wf(old(host)),
            kwargs is Some ==> old(host).valid(addr_or_null(kwargs)) && old(host).refcnt(
                addr_or_null(kwargs),
            ) < isize::MAX,
            adoptable(old(host), return_value),
        ensures
            final(host).wf(),
            call_effect(final(host), old(host), args.addr(), return_value),
            call_result(final(host), old(host).pending(), return_value, r),
    {
        let py = self.py();
        let kw = match kwargs {
            Some(k) => {
                Py_INCREF(host, k.as_ptr());
                k.as_ptr()
            },
            None => NULL,
        };
        let result = adopt(py, host, return_value);
        release(py, host, args);
        proof {
            if kw != NULL {
                assert(old(host).record_wf(kw));
            }
        }
        Py_XDECREF(host, kw);
        result
    }

    /// The outcome of calling the record with the positional arguments
    /// `args` alone, given the address `return_value` that the call
    /// returned.
    pub fn call1(&self, host: &mut Host, args: Owned, return_value: usize) -> (r: PyResult<Owned>)
        requires
            old(host).wf(),
            args.wf(old(host)),
            adoptable(old(host), return_value),
        ensures
            final(host).wf(),
            call_effect(final(host), old(host), args.addr(), return_value),
            call_result(final(host), old(host).pending(), return_value, r),
    {
        self.call(host, args, None, return_value)
    }
}

/// Whether the method `name` of the record at `o` can be looked up and
/// called with the keyword arguments at `kw`: the references that are taken
/// for the time of the call fit in the counts.
pub open spec fn method_in_reach(host: &Host, o: usize, name: Seq<char>, kw: usize) -> bool {
    let m = host.attr(o, name);
    &&& m != NULL ==> host.refcnt(m) < isize::MAX
    &&& kw != NULL ==> host.valid(kw) && host.refcnt(kw) + one_if(kw, m) < isize::MAX
}

/// What a method call returns, where the lookup of the method gave `m` and
/// the call returned `rv`: without the method, the error that the lookup
/// left pending; otherwise what a call returns.
pub open spec fn method_result(
    new: &Host,
    pending: Option<PyErrState>,
    m: usize,
    rv: usize,
    r: PyResult<Owned>,
) -> bool {
    if m == NULL {
        &&& r == Err::<Owned, PyErr>(PyErr { kind: PyErrKind::NullHandle, state: attribute_error() })
        &&& new.pending() is None
    } else {
        call_result(new, pending, rv, r)
    }
}

impl<'py> PyAny<'py> {
    /// The outcome of calling the method `name` of the record with the
    /// positional arguments `args` and the keyword arguments `kwargs`, given
    /// the address `return_value` that the call returned.
    ///
    /// Where the record has no attribute `name`, no call is made: the error
    /// that the lookup left pending is returned. Otherwise the result is an
    /// owned handle to the record at `return_value`, or the pending error
    /// where that is null. The reference to the method that the lookup
    /// handed out and the reference that `args` owned are dropped either
    /// way.
    pub fn call_method(
        &self,
        host: &mut Host,
        name: &str,
        args: Owned,
        kwargs: Option<&PyAny<'_>>,
        return_value: usize,
    ) -> (r: PyResult<Owned>)
        requires
            old(host).wf(),
            old(host).valid(self.addr()),
            args.wf(old(host)),
            kwargs is Some ==> old(host).valid(addr_or_null(kwargs)),
            method_in_reach(old(host), self.addr(), name@, addr_or_null(kwargs)),
            old(host).attr(self.addr(), name@) != NULL ==> adoptable(old(host), return_value),
        ensures
            final(host).wf(),
            call_effect(
                final(host),
                old(host),
                args.addr(),
                if old(host).attr(self.addr(), name@) != NULL {
                    return_value
                } else {
                    NULL
                },
            ),
            method_result(
                final(host),
                old(host).pending(),
                old(host).attr(self.addr(), name@),
                return_value,
                r,
            ),
    {
        let py = self.py();
        let ptr = PyObject_GetAttrString(host, self.as_ptr(), name);
        if ptr == NULL {
            let e = PyErr::fetch(py, host, PyErrKind::NullHandle);
            release(py, host, args);
            return Err(e);
        }
        let kw = match kwargs {
            Some(k) => {
                Py_INCREF(host, k.as_ptr());
                k.as_ptr()
            },
            None => NULL,
        };
        proof {
            assert(old(host).record_wf(ptr));
            if kw != NULL {
                assert(old(host).record_wf(kw));
            }
        }
        let result = adopt(py, host, return_value);
        Py_DECREF(host, ptr);
        release(py, host, args);
        Py_XDECREF(host, kw);
        result
    }

    /// The outcome of calling the method `name` of the record without
    /// arguments, given the address `return_value` that the call returned.
    /// Where the record has no attribute `name`, the error that the lookup
    /// left pending is returned.
    pub fn call_method0(&self, host: &mut Host, name: &str, return_value: usize) -> (r: PyResult<
        Owned,
    >)
        requires
            old(host).wf(),
            old(host).valid(self.addr()),
            method_in_reach(old(host), self.addr(), name@, NULL),
            old(host).attr(self.addr(), name@) != NULL ==> adoptable(old(host), return_value),
        ensures
            final(host).wf(),
            call_effect(
                final(host),
                old(host),
                NULL,
                if old(host).attr(self.addr(), name@) != NULL {
                    return_value
                } else {
                    NULL
                },
            ),
            method_result(
                final(host),
                old(host).pending(),
                old(host).attr(self.addr(), name@),
                return_value,
                r,
            ),
    {
        let py = self.py();
        let ptr = PyObject_GetAttrString(host, self.as_ptr(), name);
        if ptr == NULL {
            let e = PyErr::fetch(py, host, PyErrKind::NullHandle);
            return Err(e);
        }
        proof {
            assert(old(host).record_wf(ptr));
        }
        let result = adopt(py, host, return_value);
        Py_DECREF(host, ptr);
        result
    }

    /// The outcome of calling the method `name` of the record with the
    /// positional arguments `args` alone, given the address `return_value`
    /// that the call returned.
    pub fn call_method1(&self, host: &mut Host, name: &str, args: Owned, return_value: usize) -> (r:
        PyResult<Owned>)
        requires
            old(host).wf(),
            old(host).valid(self.addr()),
            args.wf(old(host)),
            method_in_reach(old(host), self.addr(), name@, NULL),
            old(host).attr(self.addr(), name@) != NULL ==> adoptable(old(host), return_value),
        ensures
            final(host).wf(),
            call_effect(
                final(host),
                old(host),
                args.addr(),
                if old(host).attr(self.addr(), name@) != NULL {
                    return_value
                } else {
                    NULL
                },
            ),
            method_result(
                final(host),
                old(host).pending(),
                old(host).attr(self.addr(), name@),
                return_value,
                r,
            ),
    {
        self.call_method(host, name, args, None, return_value)
    }
}

} // verus!
