//! Ordering two records.
//!
//! The comparisons run inside the host runtime. To order two records, the
//! runtime is asked whether they are equal, then whether the first is less,
//! then whether it is greater; the first question that is answered with
//! true decides, and the questions after it are not looked at.

use crate::err::{downcast_error, fetched, PyErr, PyErrKind, PyResult};
use crate::ffi::foreign::ForeignCall;
use crate::ffi::object::{Host, PyErrState, NULL};
use crate::types::any::CompareOp;
use crate::handle::{adopt, release};
use crate::types::any::PyAny;
use crate::types::call::one_if;
use core::cmp::Ordering;
use vstd::prelude::*;

verus! {

/// What the runtime answered to one comparison: the address of the record
/// that the comparison returned, null where it failed, and the status of
/// that record's truth test, -1 where it failed.
#[derive(Clone, Copy, Debug, PartialEq, Eq, Structural)]
pub struct Comparison {
    pub result: usize,
    pub truth: i32,
}

/// Whether the answer `c` means true. A comparison that returned null and a
/// truth test that returned -1 are failures, with the error that was
/// `pending`.
pub open spec fn truth(pending: Option<PyErrState>, c: Comparison) -> PyResult<bool> {
    if c.result == NULL {
        Err(PyErr { kind: PyErrKind::NullHandle, state: fetched(pending) })
    } else if c.truth == -1 {
        Err(PyErr { kind: PyErrKind::SentinelFailure, state: fetched(pending) })
    } else {
        Ok(c.truth != 0)
    }
}

/// Whether the answer `c` was looked at and meant false, so that the next
/// question is asked.
pub open spec fn says_no(pending: Option<PyErrState>, c: Comparison) -> bool {
    truth(pending, c) == Ok::<bool, PyErr>(false)
}

/// How the answers `eq`, `lt` and `gt` order two records: by the first that
/// means true. A failure on the way is returned. Where all three mean
/// false, the records cannot be ordered: that is an error of the wrong-type
/// kind.
pub open spec fn compare_outcome(
    pending: Option<PyErrState>,
    eq: Comparison,
    lt: Comparison,
    gt: Comparison,
) -> PyResult<Ordering> {
    match truth(pending, eq) {
        Err(e) => Err(e),
        Ok(true) => Ok(Ordering::Equal),
        Ok(false) => match truth(pending, lt) {
            Err(e) => Err(e),
            Ok(true) => Ok(Ordering::Less),
            Ok(false) => match truth(pending, gt) {
                Err(e) => Err(e),
                Ok(true) => Ok(Ordering::Greater),
                Ok(false) => Err(downcast_error()),
            },
        },
    }
}

/// How many references to the record at `b` are dropped when two records
/// are ordered by the answers `eq`, `lt` and `gt`: one for each answer that
/// was looked at and returned that record.
pub open spec fn dropped(
    pending: Option<PyErrState>,
    eq: Comparison,
    lt: Comparison,
    gt: Comparison,
    b: usize,
) -> int {
    one_if(b, eq.result) + if says_no(pending, eq) {
        one_if(b, lt.result) + if says_no(pending, lt) {
            one_if(b, gt.result)
        } else {
            0
        }
    } else {
        0
    }
}

/// Whether the answer `c`, taken by itself, means false: the comparison
/// returned a record whose truth test returned 0.
pub open spec fn is_no(c: Comparison) -> bool {
    c.result != NULL && c.truth == 0
}

/// The comparison to ask next, given the answers so far: equal first, then
/// less, then greater, each only where the answer before meant false. None
/// where the order is decided or a comparison failed.
pub open spec fn next_op(eq: Option<Comparison>, lt: Option<Comparison>, gt: Option<Comparison>)
    -> Option<CompareOp> {
    match eq {
        None => Some(CompareOp::Eq),
        Some(e) => if !is_no(e) {
            None
        } else {
            match lt {
                None => Some(CompareOp::Lt),
                Some(l) => if !is_no(l) {
                    None
                } else {
                    match gt {
                        None => Some(CompareOp::Gt),
                        Some(_) => None,
                    }
                },
            }
        },
    }
}

/// The comparison to ask next, given the answers so far.
pub fn next_comparison(eq: Option<Comparison>, lt: Option<Comparison>, gt: Option<Comparison>) -> (op:
    Option<CompareOp>)
    ensures
        op == next_op(eq, lt, gt),
{
    match eq {
        None => Some(CompareOp::Eq),
        Some(e) => if !(e.result != NULL && e.truth == 0) {
            None
        } else {
            match lt {
                None => Some(CompareOp::Lt),
                Some(l) => if !(l.result != NULL && l.truth == 0) {
                    None
                } else {
                    match gt {
                        None => Some(CompareOp::Gt),
                        Some(_) => None,
                    }
                },
            }
        },
    }
}

/// The call that tests the truth of the record at `result`, which a
/// comparison returned; none where the comparison returned null.
pub fn ask_truth(result: usize) -> (call: Option<ForeignCall>)
    ensures
        call == if result == NULL {
            None
        } else {
            Some(ForeignCall::PyObject_IsTrue { o: result })
        },
{
    if result == NULL {
        None
    } else {
        Some(ForeignCall::PyObject_IsTrue { o: result })
    }
}

/// The answers that ordering looks at are those that `next_op` asks for:
/// the answer for less is looked at where the answer for equal meant false,
/// and the answer for greater where the one for less meant false too.
pub proof fn lemma_asked_is_looked_at(
    pending: Option<PyErrState>,
    eq: Comparison,
    lt: Comparison,
    gt: Comparison,
)
    ensures
        says_no(pending, eq) == is_no(eq),
        (next_op(Some(eq), None, None) is Some) == says_no(pending, eq),
        (next_op(Some(eq), Some(lt), None) is Some) == (says_no(pending, eq) && says_no(
            pending,
            lt,
        )),
        next_op(Some(eq), Some(lt), Some(gt)) is None,
{
}

/// Whether the answers fit the runtime's table: every record that ordering
/// drops a reference to has that many references that no handle owns.
pub open spec fn answers_fit(host: &Host, eq: Comparison, lt: Comparison, gt: Comparison) -> bool {
    forall|b: usize| #[trigger]
        dropped(host.pending(), eq, lt, gt, b) > 0 ==> {
            &&& host.valid(b)
            &&& host.unclaimed(b) >= dropped(host.pending(), eq, lt, gt, b)
        }
}

/// Whether the answer `c` means true. The reference to the record that the
/// comparison returned is dropped once its truth is known.
pub fn truth_of(any: &PyAny<'_>, host: &mut Host, c: Comparison) -> (r: PyResult<bool>)
    requires
        old(host).wf(),
        c.result != NULL ==> old(host).valid(c.result) && old(host).unclaimed(c.result) > 0,
    ensures
        final(host).wf(),
        r == truth(old(host).pending(), c),
        final(host).count() == old(host).count(),
        final(host).extends(old(host)),
        final(host).pending() == if r is Err {
            None
        } else {
            old(host).pending()
        },
        forall|b: usize|
            #![trigger final(host).header(b)]
            #![trigger final(host).held(b)]
            old(host).valid(b) ==> {
                &&& final(host).refcnt(b) == old(host).refcnt(b) - one_if(b, c.result)
                &&& final(host).held(b) == old(host).held(b)
            },
{
    let py = any.py();
    match adopt(py, host, c.result) {
        Err(e) => Err(e),
        Ok(obj) => {
            let t = any.is_true(host, c.truth);
            release(py, host, obj);
            t
        },
    }
}

impl<'py> PyAny<'py> {
    /// The order of the record and another, given what the runtime
    /// answered to the three comparisons: `eq` for equal, `lt` for less,
    /// `gt` for greater. The answers are looked at in that order, and only
    /// as far as `next_comparison` asks for them.
    pub fn compare(
        &self,
        host: &mut Host,
        eq: Comparison,
        lt: Comparison,
        gt: Comparison,
    ) -> (r: PyResult<Ordering>)
        requires
            old(host).wf(),
            answers_fit(old(host), eq, lt, gt),
        ensures
            final(host).wf(),
            r == compare_outcome(old(host).pending(), eq, lt, gt),
            final(host).count() == old(host).count(),
            final(host).extends(old(host)),
            final(host).pending() == if r is Err && r != Err::<Ordering, PyErr>(downcast_error()) {
                None
            } else {
                old(host).pending()
            },
            forall|b: usize|
                #![trigger final(host).header(b)]
                #![trigger final(host).held(b)]
                old(host).valid(b) ==> {
                    &&& final(host).refcnt(b) == old(host).refcnt(b) - dropped(
                        old(host).pending(),
                        eq,
                        lt,
                        gt,
                        b,
                    )
                    &&& final(host).held(b) == old(host).held(b)
                },
    {
        let ghost pending = old(host).pending();
        proof {
            if eq.result != NULL {
                assert(dropped(pending, eq, lt, gt, eq.result) > 0);
            }
        }
        match truth_of(self, host, eq) {
            Err(e) => {
                return Err(e);
            },
            Ok(true) => {
                return Ok(Ordering::Equal);
            },
            Ok(false) => {},
        }
        proof {
            if lt.result != NULL {
                assert(dropped(pending, eq, lt, gt, lt.result) > 0);
            }
        }
        match truth_of(self, host, lt) {
            Err(e) => {
                return Err(e);
            },
            Ok(true) => {
                return Ok(Ordering::Less);
            },
            Ok(false) => {},
        }
        proof {
            if gt.result != NULL {
                assert(dropped(pending, eq, lt, gt, gt.result) > 0);
            }
        }
        let last = truth_of(self, host, gt);
        match last {
            Err(e) => Err(e),
            Ok(true) => Ok(Ordering::Greater),
            Ok(false) => Err(PyErr::new_type_error()),
        }
    }
}

} // verus!
