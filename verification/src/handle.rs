//! The handle model: a record is reached through an owned handle, which must
//! be released exactly once, or through a borrowed handle, which must not be
//! released and lives no longer than the scope that produced it.

use crate::err::{fetched, PyDowncastError, PyErr, PyErrKind, PyResult};
use crate::ffi::object::{Host, NULL};
use crate::ffi::refcount::{PyObject_TypeCheck, Py_TYPE};
use crate::python::Python;
use core::marker::PhantomData;
use vstd::prelude::*;

verus! {

/// A borrowed handle: the reference it uses is owned elsewhere. It may be
/// copied freely and is valid during the scope `'a`.
#[derive(Clone, Copy)]
pub struct Borrowed<'a> {
    address: usize,
    scope: PhantomData<&'a ()>,
}

/// An owned handle: it owns one reference to its record. It cannot be
/// copied, and releasing it consumes it.
pub struct Owned {
    address: usize,
}

/// A borrowed handle to a record that is known to be of the type at
/// `descriptor` or of a type that descends from it.
#[derive(Clone, Copy)]
pub struct Typed<'a> {
    address: usize,
    descriptor: usize,
    scope: PhantomData<&'a ()>,
}

impl<'a> Borrowed<'a> {
    /// The address of the record.
    pub closed spec fn addr(&self) -> usize {
        self.address
    }

    /// The address of the record.
    pub fn as_ptr(&self) -> (a: usize)
        ensures
            a == self.addr(),
    {
        self.address
    }

    /// Whether the handle names a record of `host` that is referenced.
    pub open spec fn wf(&self, host: &Host) -> bool {
        host.is_live(self.addr())
    }
}

impl Owned {
    /// The address of the record.
    pub closed spec fn addr(&self) -> usize {
        self.address
    }

    /// The address of the record.
    pub fn as_ptr(&self) -> (a: usize)
        ensures
            a == self.addr(),
    {
        self.address
    }

    /// Whether the handle names a record of `host` one of whose references is
    /// owned by a handle.
    pub open spec fn wf(&self, host: &Host) -> bool {
        host.valid(self.addr()) && host.held(self.addr()) > 0
    }

    /// A borrowed handle to the same record, valid while this handle is
    /// borrowed.
    pub fn as_borrowed<'a>(&'a self, py: Python<'_>) -> (b: Borrowed<'a>)
        ensures
            b.addr() == self.addr(),
    {
        Borrowed { address: self.address, scope: PhantomData }
    }
}

impl<'a> Typed<'a> {
    /// The address of the record.
    pub closed spec fn addr(&self) -> usize {
        self.address
    }

    /// The address of the type that the record is known to have.
    pub closed spec fn expected(&self) -> usize {
        self.descriptor
    }

    /// The address of the record.
    pub fn as_ptr(&self) -> (a: usize)
        ensures
            a == self.addr(),
    {
        self.address
    }

    /// The address of the type that the record is known to have.
    pub fn type_descriptor(&self) -> (t: usize)
        ensures
            t == self.expected(),
    {
        self.descriptor
    }

    /// Whether the handle names a record of `host` that is referenced and
    /// whose type is the expected one or descends from it.
    pub open spec fn wf(&self, host: &Host) -> bool {
        &&& host.is_live(self.addr())
        &&& host.subtype(host.type_of(self.addr()), self.expected())
    }

    /// The same handle without what is known of its type.
    pub fn as_borrowed(&self) -> (b: Borrowed<'a>)
        ensures
            b.addr() == self.addr(),
    {
        Borrowed { address: self.address, scope: PhantomData }
    }
}

/// One event in the life of a record's references.
pub enum Op {
    /// The host runtime hands out a new reference, which no handle owns yet:
    /// a call returns one, or `Py_INCREF` takes one.
    Produce,
    /// `adopt` wraps a reference that no handle owned.
    Adopt,
    /// `clone_reference` adds a reference and owns it.
    CloneReference,
    /// `release` drops a reference that a handle owned.
    Release,
}

/// The reference count of the record at `a` and, of it, the references that
/// handles own.
pub open spec fn counts(host: &Host, a: usize) -> (int, int) {
    (host.refcnt(a), host.held(a))
}

/// Whether `op` may happen to a record with the counts `c`: a reference can
/// be adopted where one exists that no handle owns, and released where a
/// handle owns one.
pub open spec fn permitted(op: Op, c: (int, int)) -> bool {
    match op {
        Op::Produce => true,
        Op::Adopt => c.0 - c.1 > 0,
        Op::CloneReference => true,
        Op::Release => c.1 > 0,
    }
}

/// The counts of a record after `op`, given its counts `c` before.
pub open spec fn step(op: Op, c: (int, int)) -> (int, int) {
    match op {
        Op::Produce => (c.0 + 1, c.1),
        Op::Adopt => (c.0, c.1 + 1),
        Op::CloneReference => (c.0 + 1, c.1 + 1),
        Op::Release => (c.0 - 1, c.1 - 1),
    }
}

/// The counts of a record after the events `ops`, first to last.
pub open spec fn run(ops: Seq<Op>, c: (int, int)) -> (int, int)
    decreases ops.len(),
{
    if ops.len() == 0 {
        c
    } else {
        step(ops.last(), run(ops.drop_last(), c))
    }
}

/// Whether each of the events `ops` may happen when its turn comes.
pub open spec fn all_permitted(ops: Seq<Op>, c: (int, int)) -> bool
    decreases ops.len(),
{
    ops.len() == 0 || (all_permitted(ops.drop_last(), c) && permitted(
        ops.last(),
        run(ops.drop_last(), c),
    ))
}

/// How often `op` occurs in `ops`.
pub open spec fn occurrences(ops: Seq<Op>, op: Op) -> int
    decreases ops.len(),
{
    if ops.len() == 0 {
        0
    } else {
        occurrences(ops.drop_last(), op) + if ops.last() == op {
            1int
        } else {
            0int
        }
    }
}

/// Ownership balance. After any sequence of events on one record, the
/// references that handles own are those owned before, plus one for each
/// `adopt` and each `clone_reference`, minus one for each `release`; the
/// reference count is the count before, plus one for each reference that the
/// host runtime produced and each `clone_reference`, minus one for each
/// `release`. Neither is ever negative, and handles never own more references
/// than exist.
pub proof fn lemma_ownership_balance(ops: Seq<Op>, c: (int, int))
    requires
        0 <= c.1 <= c.0,
        all_permitted(ops, c),
    ensures
        run(ops, c).1 == c.1 + occurrences(ops, Op::Adopt) + occurrences(ops, Op::CloneReference)
            - occurrences(ops, Op::Release),
        run(ops, c).0 == c.0 + occurrences(ops, Op::Produce) + occurrences(
            ops,
            Op::CloneReference,
        ) - occurrences(ops, Op::Release),
        0 <= run(ops, c).1 <= run(ops, c).0,
    decreases ops.len(),
{
    if ops.len() > 0 {
        lemma_ownership_balance(ops.drop_last(), c);
    }
}

/// Ownership balance where every adopted reference was produced within the
/// sequence: the reference count after it is the count before, plus one for
/// each `adopt` and each `clone_reference`, minus one for each `release`.
pub proof fn lemma_reference_count_balance(ops: Seq<Op>, c: (int, int))
    requires
        0 <= c.1 <= c.0,
        all_permitted(ops, c),
        occurrences(ops, Op::Produce) == occurrences(ops, Op::Adopt),
    ensures
        run(ops, c).0 == c.0 + occurrences(ops, Op::Adopt) + occurrences(ops, Op::CloneReference)
            - occurrences(ops, Op::Release),
        run(ops, c).0 >= 0,
{
    lemma_ownership_balance(ops, c);
}

/// Wraps `address` as a borrowed handle. No reference changes hands and the
/// reference count stays as it is.
pub fn borrow<'a>(py: Python<'a>, host: &Host, address: usize) -> (h: Borrowed<'a>)
    requires
        host.is_live(address),
    ensures
        h.addr() == address,
        h.wf(host),
{
    Borrowed { address, scope: PhantomData }
}

/// Whether `address` may be adopted: it is null, or the address of a record
/// with a reference that no handle owns.
pub open spec fn adoptable(host: &Host, address: usize) -> bool {
    address != NULL ==> host.valid(address) && host.unclaimed(address) > 0
}

/// What holds once `address` was adopted with the result `r`: for the null
/// address, `r` is the pending error, which was taken; otherwise `r` is an
/// owned handle to the record, which owns one reference more than before.
pub open spec fn adopted(new: &Host, old: &Host, address: usize, r: PyResult<Owned>) -> bool {
    if address == NULL {
        &&& r == Err::<Owned, PyErr>(
            PyErr { kind: PyErrKind::NullHandle, state: fetched(old.pending()) },
        )
        &&& new.same_records(old)
        &&& new.pending() is None
    } else {
        &&& r is Ok
        &&& r->Ok_0.addr() == address
        &&& r->Ok_0.wf(new)
        &&& new.same_but_counts(old, address)
        &&& new.refcnt(address) == old.refcnt(address)
        &&& new.held(address) == old.held(address) + 1
    }
}

/// Wraps the address that a call into the host runtime returned, and takes
/// over the reference that came with it. The null address means that the
/// call failed: its pending error is taken and returned, and no handle is
/// made.
pub fn adopt(py: Python<'_>, host: &mut Host, address: usize) -> (r: PyResult<Owned>)
    requires
        old(host).wf(),
        adoptable(old(host), address),
    ensures
        final(host).wf(),
        adopted(final(host), old(host), address, r),
        address != NULL ==> counts(final(host), address) == step(
            Op::Adopt,
            counts(old(host), address),
        ),
{
    if address == NULL {
        Err(PyErr::fetch(py, host, PyErrKind::NullHandle))
    } else {
        Ok(adopt_nonnull(py, host, address))
    }
}

/// Wraps an address that is known not to be null, and takes over the
/// reference that came with it.
pub fn adopt_nonnull(py: Python<'_>, host: &mut Host, address: usize) -> (h: Owned)
    requires
        old(host).wf(),
        address != NULL,
        adoptable(old(host), address),
    ensures
        final(host).wf(),
        adopted(final(host), old(host), address, Ok::<Owned, PyErr>(h)),
        counts(final(host), address) == step(Op::Adopt, counts(old(host), address)),
{
    assert(old(host).record_wf(address));
    let n = host.get_header(address).ob_refcnt;
    let h = host.owned_references(address);
    host.set_counts(address, n, h + 1);
    Owned { address }
}

/// Adds one reference to the record of `handle` and returns an owned handle
/// to it.
pub fn clone_reference(py: Python<'_>, host: &mut Host, handle: Borrowed<'_>) -> (h: Owned)
    requires
        old(host).wf(),
        old(host).valid(handle.addr()),
        old(host).refcnt(handle.addr()) < isize::MAX,
    ensures
        final(host).wf(),
        h.addr() == handle.addr(),
        h.wf(final(host)),
        final(host).same_but_counts(old(host), handle.addr()),
        final(host).refcnt(handle.addr()) == old(host).refcnt(handle.addr()) + 1,
        final(host).held(handle.addr()) == old(host).held(handle.addr()) + 1,
        counts(final(host), handle.addr()) == step(
            Op::CloneReference,
            counts(old(host), handle.addr()),
        ),
{
    let address = handle.address;
    assert(old(host).record_wf(address));
    let n = host.get_header(address).ob_refcnt;
    let h = host.owned_references(address);
    host.set_counts(address, n + 1, h + 1);
    Owned { address }
}

/// Drops the reference that `handle` owns. The handle is consumed, so it
/// cannot be released twice.
pub fn release(py: Python<'_>, host: &mut Host, handle: Owned)
    requires
        old(host).wf(),
        handle.wf(old(host)),
    ensures
        final(host).wf(),
        final(host).same_but_counts(old(host), handle.addr()),
        final(host).refcnt(handle.addr()) == old(host).refcnt(handle.addr()) - 1,
        final(host).held(handle.addr()) == old(host).held(handle.addr()) - 1,
        counts(final(host), handle.addr()) == step(Op::Release, counts(old(host), handle.addr())),
{
    let address = handle.address;
    assert(old(host).record_wf(address));
    let n = host.get_header(address).ob_refcnt;
    let h = host.owned_references(address);
    host.set_counts(address, n - 1, h - 1);
}

/// What `type_check` answers: with `exact`, whether the record's type is the
/// one at `expected`; without, whether it is that type or descends from it.
pub open spec fn type_matches(host: &Host, address: usize, expected: usize, exact: bool) -> bool {
    if exact {
        host.type_of(address) == expected
    } else {
        host.subtype(host.type_of(address), expected)
    }
}

/// Compares the type of the record of `handle` with the type at `expected`.
/// No reference count changes.
pub fn type_check(
    py: Python<'_>,
    host: &Host,
    handle: Borrowed<'_>,
    expected: usize,
    exact: bool,
) -> (b: bool)
    requires
        host.wf(),
        host.valid(handle.addr()),
    ensures
        b == type_matches(host, handle.addr(), expected, exact),
{
    if exact {
        Py_TYPE(host, handle.address) == expected
    } else {
        PyObject_TypeCheck(host, handle.address, expected) != 0
    }
}

/// Converts `handle` to a handle that is known to be of the type at
/// `expected`, where the record's type is that type or descends from it.
/// Otherwise reports the type that was found. Either way the handle and the
/// reference counts stay as they are.
pub fn downcast<'a>(py: Python<'_>, host: &Host, handle: Borrowed<'a>, expected: usize) -> (r:
    Result<Typed<'a>, PyDowncastError>)
    requires
        host.wf(),
        host.valid(handle.addr()),
    ensures
        type_matches(host, handle.addr(), expected, false) ==> {
            &&& r is Ok
            &&& r->Ok_0.addr() == handle.addr()
            &&& r->Ok_0.expected() == expected
        },
        !type_matches(host, handle.addr(), expected, false) ==> r == Err::<
            Typed<'a>,
            PyDowncastError,
        >(PyDowncastError { found: host.type_of(handle.addr()), expected }),
{
    if type_check(py, host, handle, expected, false) {
        Ok(Typed { address: handle.address, descriptor: expected, scope: PhantomData })
    } else {
        Err(PyDowncastError { found: Py_TYPE(host, handle.address), expected })
    }
}

} // verus!
