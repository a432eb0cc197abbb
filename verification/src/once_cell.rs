//! A cell that is filled once: the cache behind a capability table.
//!
//! A cell is empty, being filled by one context, or ready. Only the context
//! that found it empty fills it; the others wait. A failed import leaves the
//! cell empty, so that a later access tries again.

use crate::err::{PyErr, PyResult};
use crate::python::Python;
use vstd::prelude::*;

verus! {

/// The state of a cell.
pub enum CellState<T> {
    /// Nothing was stored, and no context is importing.
    Uninitialized,
    /// The context `by` is importing.
    Initializing { by: u64 },
    /// The value is stored and will not change.
    Ready { value: T },
}

/// What a context that accesses a cell is told.
pub enum Access<T> {
    /// The cell was empty: run the import and report how it ended.
    Import,
    /// Another context is importing: wait, then access again.
    Wait,
    /// The cell is ready; this is its value.
    Ready(T),
}

/// Something that happens to a cell.
pub enum Event<T> {
    /// The context `ctx` accesses the cell.
    Access { ctx: u64 },
    /// The context `ctx` reports how its import ended.
    Complete { ctx: u64, result: PyResult<T> },
}

/// The state of a cell after the context `ctx` accessed it in the state `s`.
pub open spec fn after_access<T>(s: CellState<T>, ctx: u64) -> CellState<T> {
    match s {
        CellState::Uninitialized => CellState::Initializing { by: ctx },
        _ => s,
    }
}

/// What the context `ctx` is told when it accesses a cell in the state `s`.
pub open spec fn reply<T>(s: CellState<T>, ctx: u64) -> Access<T> {
    match s {
        CellState::Uninitialized => Access::Import,
        CellState::Initializing { by } => Access::Wait,
        CellState::Ready { value } => Access::Ready(value),
    }
}

/// Whether the cell in the state `s` awaits a report from the context `ctx`.
pub open spec fn awaits<T>(s: CellState<T>, ctx: u64) -> bool {
    s == (CellState::<T>::Initializing { by: ctx })
}

/// The state of a cell that awaited the report `result`, after it.
pub open spec fn after_complete<T>(result: PyResult<T>) -> CellState<T> {
    match result {
        Ok(value) => CellState::Ready { value },
        Err(_) => CellState::Uninitialized,
    }
}

/// The state of a cell after `e`, given its state `s` before. A report from
/// a context that is not importing changes nothing.
pub open spec fn after_event<T>(s: CellState<T>, e: Event<T>) -> CellState<T> {
    match e {
        Event::Access { ctx } => after_access(s, ctx),
        Event::Complete { ctx, result } => if awaits(s, ctx) {
            after_complete(result)
        } else {
            s
        },
    }
}

/// The state of a cell after the events `es`, first to last, given its state
/// `s` before.
pub open spec fn after_events<T>(s: CellState<T>, es: Seq<Event<T>>) -> CellState<T>
    decreases es.len(),
{
    if es.len() == 0 {
        s
    } else {
        after_event(after_events(s, es.drop_last()), es.last())
    }
}

/// How many imports the events `es` start on a cell in the state `s`.
pub open spec fn imports_started<T>(s: CellState<T>, es: Seq<Event<T>>) -> int
    decreases es.len(),
{
    if es.len() == 0 {
        0
    } else {
        let before = after_events(s, es.drop_last());
        imports_started(s, es.drop_last()) + match es.last() {
            Event::Access { ctx } => if before is Uninitialized {
                1int
            } else {
                0int
            },
            _ => 0int,
        }
    }
}

/// How many imports the events `es` report as failed, on a cell in the state
/// `s`.
pub open spec fn imports_failed<T>(s: CellState<T>, es: Seq<Event<T>>) -> int
    decreases es.len(),
{
    if es.len() == 0 {
        0
    } else {
        let before = after_events(s, es.drop_last());
        imports_failed(s, es.drop_last()) + match es.last() {
            Event::Complete { ctx, result } => if awaits(before, ctx) && result is Err {
                1int
            } else {
                0int
            },
            _ => 0int,
        }
    }
}

/// The values that the events `es` hand to contexts, in order: to a context
/// that accesses a ready cell, and to the context whose import succeeded.
pub open spec fn values_seen<T>(s: CellState<T>, es: Seq<Event<T>>) -> Seq<T>
    decreases es.len(),
{
    if es.len() == 0 {
        Seq::empty()
    } else {
        let before = after_events(s, es.drop_last());
        let earlier = values_seen(s, es.drop_last());
        match es.last() {
            Event::Access { ctx } => match before {
                CellState::Ready { value } => earlier.push(value),
                _ => earlier,
            },
            Event::Complete { ctx, result } => match result {
                Ok(value) => if awaits(before, ctx) {
                    earlier.push(value)
                } else {
                    earlier
                },
                Err(_) => earlier,
            },
        }
    }
}

/// What holds of an empty cell's history at every moment.
pub open spec fn history_inv<T>(es: Seq<Event<T>>) -> bool {
    let s = CellState::<T>::Uninitialized;
    let now = after_events(s, es);
    let started = imports_started(s, es);
    let failed = imports_failed(s, es);
    let seen = values_seen(s, es);
    &&& 0 <= failed <= started <= failed + 1
    &&& match now {
        CellState::Uninitialized => started == failed && seen.len() == 0,
        CellState::Initializing { by } => started == failed + 1 && seen.len() == 0,
        CellState::Ready { value } => started == failed + 1 && forall|i: int|
            0 <= i < seen.len() ==> seen[i] == value,
    }
}

/// Single initialization. Whatever contexts access an empty cell, in
/// whatever order, at most one import runs beyond those that failed, and
/// every value that is handed out is the one value that the cell holds.
pub proof fn lemma_single_initialization<T>(es: Seq<Event<T>>)
    ensures
        history_inv(es),
    decreases es.len(),
{
    if es.len() > 0 {
        let s = CellState::<T>::Uninitialized;
        let pre = es.drop_last();
        lemma_single_initialization(pre);
        let before = after_events(s, pre);
        let seen = values_seen(s, es);
        match es.last() {
            Event::Access { ctx } => {
                // A context that accesses a ready cell is handed its value.
                if let CellState::Ready { value } = before {
                    let earlier = values_seen(s, pre);
                    assert(seen == earlier.push(value));
                    assert forall|i: int| 0 <= i < seen.len() implies seen[i] == value by {
                        if i < earlier.len() {
                            assert(seen[i] == earlier[i]);
                        }
                    }
                }
            },
            Event::Complete { ctx, result } => {
                // The first value is handed to the context whose import succeeded.
                if let Ok(value) = result {
                    if awaits(before, ctx) {
                        assert forall|i: int| 0 <= i < seen.len() implies seen[i] == value by {}
                    }
                }
            },
        }
    }
}

/// Single initialization where no import fails: exactly one import runs once
/// the cell was accessed, and every context sees the same value.
pub proof fn lemma_import_runs_once<T>(es: Seq<Event<T>>)
    requires
        imports_failed(CellState::<T>::Uninitialized, es) == 0,
    ensures
        ({
            let s = CellState::<T>::Uninitialized;
            let seen = values_seen(s, es);
            &&& imports_started(s, es) <= 1
            &&& !(after_events(s, es) is Uninitialized) ==> imports_started(s, es) == 1
            &&& forall|i: int, j: int|
                0 <= i < seen.len() && 0 <= j < seen.len() ==> seen[i] == seen[j]
        }),
{
    lemma_single_initialization(es);
}

/// A cell that is filled at most once.
pub struct GILOnceCell<T> {
    state: CellState<T>,
}

impl<T> View for GILOnceCell<T> {
    type V = CellState<T>;

    closed spec fn view(&self) -> CellState<T> {
        self.state
    }
}

impl<T: Copy> GILOnceCell<T> {
    /// An empty cell.
    pub fn new() -> (cell: Self)
        ensures
            cell@ is Uninitialized,
    {
        GILOnceCell { state: CellState::Uninitialized }
    }

    /// The value of the cell, where it is ready.
    pub fn get(&self, py: Python<'_>) -> (v: Option<T>)
        ensures
            v == match self@ {
                CellState::Ready { value } => Some(value),
                _ => None::<T>,
            },
    {
        match &self.state {
            CellState::Ready { value } => Some(*value),
            _ => None,
        }
    }

    /// Whether the cell awaits a report from the context `ctx`.
    pub fn is_importing(&self, py: Python<'_>, ctx: u64) -> (b: bool)
        ensures
            b == awaits(self@, ctx),
    {
        match &self.state {
            CellState::Initializing { by } => *by == ctx,
            _ => false,
        }
    }

    /// The context `ctx` accesses the cell. It is told to import where the
    /// cell was empty, to wait where another context is importing, and the
    /// value where the cell is ready.
    pub fn access(&mut self, py: Python<'_>, ctx: u64) -> (a: Access<T>)
        ensures
            a == reply(old(self)@, ctx),
            final(self)@ == after_access(old(self)@, ctx),
            final(self)@ == after_event(old(self)@, Event::Access { ctx }),
    {
        match &self.state {
            CellState::Uninitialized => {
                self.state = CellState::Initializing { by: ctx };
                Access::Import
            },
            CellState::Initializing { by } => Access::Wait,
            CellState::Ready { value } => Access::Ready(*value),
        }
    }

    /// The context `ctx`, which was told to import, reports how its import
    /// ended. A value is stored for good and returned; a failure is returned
    /// and leaves the cell empty.
    pub fn complete(&mut self, py: Python<'_>, ctx: u64, result: PyResult<T>) -> (r: PyResult<T>)
        requires
            awaits(old(self)@, ctx),
        ensures
            r == result,
            final(self)@ == after_complete(result),
            final(self)@ == after_event(old(self)@, Event::Complete { ctx, result }),
    {
        match result {
            Ok(value) => {
                self.state = CellState::Ready { value };
                Ok(value)
            },
            Err(e) => {
                self.state = CellState::Uninitialized;
                Err(e)
            },
        }
    }

    /// The value of the cell; where the cell is empty, `f` is run to import
    /// it. A ready cell is returned as it is, and `f` is not run. Where `f`
    /// fails, its error is returned and the cell stays empty.
    pub fn get_or_try_init<F: FnOnce() -> PyResult<T>>(&mut self, py: Python<'_>, f: F) -> (r:
        PyResult<T>)
        requires
            !(old(self)@ is Initializing),
            old(self)@ is Uninitialized ==> call_requires(f, ()),
        ensures
            old(self)@ is Ready ==> {
                &&& r == Ok::<T, PyErr>(old(self)@->value)
                &&& final(self)@ == old(self)@
            },
            old(self)@ is Uninitialized ==> call_ensures(f, (), r) && final(self)@
                == after_complete(r),
    {
        match self.access(py, 0) {
            Access::Ready(value) => Ok(value),
            _ => {
                let result = f();
                self.complete(py, 0, result)
            },
        }
    }

    /// The value of the cell; where the cell is empty, `f` is run to import
    /// it and its result is stored. A ready cell is returned as it is, and
    /// `f` is not run.
    pub fn get_or_init<F: FnOnce() -> T>(&mut self, py: Python<'_>, f: F) -> (v: T)
        requires
            !(old(self)@ is Initializing),
            old(self)@ is Uninitialized ==> call_requires(f, ()),
        ensures
            final(self)@ == (CellState::Ready { value: v }),
            old(self)@ is Ready ==> v == old(self)@->value,
            old(self)@ is Uninitialized ==> call_ensures(f, (), v),
    {
        match self.access(py, 0) {
            Access::Ready(value) => value,
            _ => {
                let value = f();
                let _ = self.complete(py, 0, Ok(value));
                value
            },
        }
    }
}

} // verus!
