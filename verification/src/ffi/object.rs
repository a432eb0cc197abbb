//! The host runtime's object table: records, their reference counts and
//! their types.
//!
//! A record is named by its address, a positive number; address 0 is the null
//! address. Every record carries a header with its reference count and the
//! address of its type. The table also keeps, for every record, how many of
//! its references are owned by handles on this side of the boundary.

use vstd::prelude::*;

verus! {

/// The null address.
pub const NULL: usize = 0;

/// Address of the root type, from which every type descends.
pub const OBJECT_TYPE: usize = 1;

/// Address of the type of types.
pub const TYPE_TYPE: usize = 2;

/// Address of the type of integers.
pub const LONG_TYPE: usize = 3;

/// Address of the type of byte strings.
pub const BYTES_TYPE: usize = 4;

/// Address of the type of lists.
pub const LIST_TYPE: usize = 5;

/// Address of the type of the error raised for a value of the wrong type.
pub const TYPE_ERROR_TYPE: usize = 6;

/// Address of the type of the error raised for a missing attribute.
pub const ATTRIBUTE_ERROR_TYPE: usize = 7;

/// Address of the type of the error raised for a broken internal rule.
pub const SYSTEM_ERROR_TYPE: usize = 8;

/// Address of the type of text strings.
pub const UNICODE_TYPE: usize = 9;

/// Address of the type of tracebacks.
pub const TRACEBACK_TYPE: usize = 10;

/// Address of the type of the value that stands for no value.
pub const NONE_TYPE: usize = 11;

/// Number of built-in types, which take the first addresses.
pub const BUILTIN_TYPES: usize = 11;

/// Address of the value that stands for no value.
pub const PY_NONE: usize = 12;

/// An error raised inside the host runtime: the addresses of its type, of its
/// value and of its traceback (null where there is none).
#[derive(Clone, Copy, Debug, PartialEq, Eq, Structural)]
pub struct PyErrState {
    pub ptype: usize,
    pub pvalue: usize,
    pub ptraceback: usize,
}

/// The header that starts every record.
#[derive(Clone, Copy, Debug, PartialEq, Eq, Structural)]
pub struct PyObject {
    pub ob_refcnt: isize,
    pub ob_type: usize,
}

/// An attribute binding: the record it belongs to, its name and the address
/// of its value (null where the binding removes the attribute).
pub struct Attr {
    pub owner: usize,
    pub name: String,
    pub value: usize,
}

/// The value that the latest binding in `bindings` gives to the attribute
/// `name` of the record at `o`: null where there is none.
pub open spec fn lookup(bindings: Seq<(usize, Seq<char>, usize)>, o: usize, name: Seq<char>) -> usize
    decreases bindings.len(),
{
    if bindings.len() == 0 {
        NULL
    } else if bindings.last().0 == o && bindings.last().1 == name {
        bindings.last().2
    } else {
        lookup(bindings.drop_last(), o, name)
    }
}

/// What a record holds after its header.
#[allow(inconsistent_fields)]
pub enum Body {
    /// A plain instance.
    Object,
    /// A type, with the address of its base type (null for the root type).
    Type { tp_base: usize },
    /// An integer.
    Long { ob_ival: i64 },
    /// A byte string.
    Bytes { ob_sval: Vec<u8> },
    /// A text string.
    Unicode { text: String },
    /// A date in its packed layout.
    Date { hashcode: isize, hastzinfo: i8, data: [u8; 4] },
    /// A date and time in its packed layout.
    DateTime { hashcode: isize, hastzinfo: i8, data: [u8; 10], fold: u8, tzinfo: usize },
    /// A time of day in its packed layout.
    Time { hashcode: isize, hastzinfo: i8, data: [u8; 6], fold: u8, tzinfo: usize },
    /// A duration.
    Delta { hashcode: isize, days: i32, seconds: i32, microseconds: i32 },
    /// A list: its element slots and how many of them are allocated.
    List { ob_item: Vec<usize>, allocated: isize },
}

/// The bookkeeping of one record.
#[derive(Clone, Copy)]
pub struct Slot {
    pub header: PyObject,
    pub held: isize,
}

/// The host runtime's object table and its pending-error state.
pub struct Host {
    slots: Vec<Slot>,
    bodies: Vec<Body>,
    bindings: Vec<Attr>,
    pending: Option<PyErrState>,
}

impl Host {
    /// Number of records in the table.
    pub closed spec fn count(&self) -> nat {
        self.slots@.len()
    }

    /// Whether `a` is the address of a record.
    pub open spec fn valid(&self, a: usize) -> bool {
        1 <= a <= self.count()
    }

    /// The header of the record at `a`.
    pub closed spec fn header(&self, a: usize) -> PyObject {
        self.slots@[a - 1].header
    }

    /// The reference count of the record at `a`.
    pub open spec fn refcnt(&self, a: usize) -> int {
        self.header(a).ob_refcnt as int
    }

    /// The address of the type of the record at `a`.
    pub open spec fn type_of(&self, a: usize) -> usize {
        self.header(a).ob_type
    }

    /// How many references to the record at `a` are owned by handles.
    pub closed spec fn held(&self, a: usize) -> int {
        self.slots@[a - 1].held as int
    }

    /// How many references to the record at `a` no handle owns.
    pub open spec fn unclaimed(&self, a: usize) -> int {
        self.refcnt(a) - self.held(a)
    }

    /// What the record at `a` holds after its header.
    pub closed spec fn body(&self, a: usize) -> Body {
        self.bodies@[a - 1]
    }

    /// Every attribute binding made so far, oldest first.
    pub closed spec fn bindings(&self) -> Seq<(usize, Seq<char>, usize)> {
        self.bindings@.map_values(|x: Attr| (x.owner, x.name@, x.value))
    }

    /// The address of the value of the attribute `name` of the record at `a`:
    /// null where the record has no such attribute.
    pub open spec fn attr(&self, a: usize, name: Seq<char>) -> usize {
        lookup(self.bindings(), a, name)
    }

    /// The error that is pending, if any.
    pub closed spec fn pending(&self) -> Option<PyErrState> {
        self.pending
    }

    /// Whether the record at `a` is a type.
    pub open spec fn is_type(&self, a: usize) -> bool {
        self.body(a) is Type
    }

    /// The base of the type at `a`: null for the root type.
    pub open spec fn base_of(&self, a: usize) -> usize {
        self.body(a)->tp_base
    }

    /// Whether the record at `a` exists and is referenced.
    pub open spec fn is_live(&self, a: usize) -> bool {
        self.valid(a) && self.refcnt(a) > 0
    }

    /// The vectors describe the same records.
    pub closed spec fn aligned(&self) -> bool {
        self.slots@.len() == self.bodies@.len()
    }

    /// Every attribute binding names a record of the table or removes an
    /// attribute.
    pub open spec fn bindings_wf(&self) -> bool {
        forall|i: int|
            0 <= i < self.bindings().len() ==> {
                ||| (#[trigger] self.bindings()[i]).2 == NULL
                ||| self.valid(self.bindings()[i].2)
            }
    }

    /// What holds of the record at `a` in a well-formed table.
    pub open spec fn record_wf(&self, a: usize) -> bool {
        &&& 0 <= self.held(a) <= self.refcnt(a)
        &&& self.valid(self.type_of(a))
        &&& self.is_type(self.type_of(a))
        &&& self.is_type(a) ==> if a == OBJECT_TYPE {
            self.base_of(a) == NULL
        } else {
            1 <= self.base_of(a) < a && self.is_type(self.base_of(a))
        }
    }

    /// The table's invariant: counts are never negative, handles own no more
    /// references than exist, every record's type is a type in the table, and
    /// the chain of bases of a type leads down to the root type.
    pub open spec fn wf(&self) -> bool {
        &&& self.aligned()
        &&& self.bindings_wf()
        &&& self.count() >= PY_NONE
        &&& self.is_type(OBJECT_TYPE)
        &&& self.is_type(TYPE_TYPE)
        &&& self.is_type(LONG_TYPE)
        &&& self.is_type(BYTES_TYPE)
        &&& self.is_type(LIST_TYPE)
        &&& self.is_type(TYPE_ERROR_TYPE)
        &&& self.is_type(ATTRIBUTE_ERROR_TYPE)
        &&& self.is_type(SYSTEM_ERROR_TYPE)
        &&& self.is_type(UNICODE_TYPE)
        &&& self.is_type(TRACEBACK_TYPE)
        &&& self.is_type(NONE_TYPE)
        &&& self.type_of(PY_NONE) == NONE_TYPE
        &&& forall|a: usize| self.valid(a) ==> #[trigger] self.record_wf(a)
    }

    /// Whether the type at `a` is `b` or descends from it.
    pub open spec fn subtype(&self, a: usize, b: usize) -> bool
        decreases a,
    {
        if a == NULL {
            false
        } else if a == b {
            true
        } else if self.is_type(a) && self.base_of(a) < a {
            self.subtype(self.base_of(a), b)
        } else {
            false
        }
    }

    /// Whether every record of `old` is in `self` with the same type and the
    /// same contents.
    pub open spec fn extends(&self, old: &Host) -> bool {
        &&& old.count() <= self.count()
        &&& self.bindings() == old.bindings()
        &&& forall|a: usize|
            #![trigger self.header(a)]
            #![trigger self.body(a)]
            old.valid(a) ==> {
                &&& self.type_of(a) == old.type_of(a)
                &&& self.body(a) == old.body(a)
            }
    }

    /// Whether `self` holds the records of `old` unchanged, and the same
    /// pending error.
    pub open spec fn same_state(&self, old: &Host) -> bool {
        &&& self.same_records(old)
        &&& self.pending() == old.pending()
    }

    /// Whether `self` differs from `old` at most in the counts of record `a`.
    pub open spec fn same_but_counts(&self, old: &Host, a: usize) -> bool {
        &&& self.count() == old.count()
        &&& self.pending() == old.pending()
        &&& self.extends(old)
        &&& forall|b: usize|
            #![trigger self.header(b)]
            #![trigger self.held(b)]
            old.valid(b) && b != a ==> {
                &&& self.refcnt(b) == old.refcnt(b)
                &&& self.held(b) == old.held(b)
            }
    }
}

impl Host {
    /// A table that holds the built-in types and the value that stands for
    /// no value, and nothing else, with no error pending. Each of these
    /// records has one reference, which no handle owns.
    pub fn new() -> (host: Host)
        ensures
            host.wf(),
            host.count() == PY_NONE,
            host.pending() is None,
            forall|a: usize|
                #![trigger host.header(a)]
                #![trigger host.held(a)]
                #![trigger host.body(a)]
                host.valid(a) ==> {
                    &&& host.refcnt(a) == 1
                    &&& host.held(a) == 0
                    &&& host.type_of(a) == if a == PY_NONE {
                        NONE_TYPE
                    } else {
                        TYPE_TYPE
                    }
                    &&& host.is_type(a) == (a != PY_NONE)
                },
            host.bindings().len() == 0,
            host.base_of(OBJECT_TYPE) == NULL,
            host.base_of(TYPE_TYPE) == OBJECT_TYPE,
            host.base_of(LONG_TYPE) == OBJECT_TYPE,
            host.base_of(BYTES_TYPE) == OBJECT_TYPE,
            host.base_of(LIST_TYPE) == OBJECT_TYPE,
            host.base_of(TYPE_ERROR_TYPE) == OBJECT_TYPE,
            host.base_of(ATTRIBUTE_ERROR_TYPE) == OBJECT_TYPE,
            host.base_of(SYSTEM_ERROR_TYPE) == OBJECT_TYPE,
            host.base_of(UNICODE_TYPE) == OBJECT_TYPE,
            host.base_of(TRACEBACK_TYPE) == OBJECT_TYPE,
            host.base_of(NONE_TYPE) == OBJECT_TYPE,
    {
        let mut host = Host {
            slots: Vec::new(),
            bodies: Vec::new(),
            bindings: Vec::new(),
            pending: None,
        };
        let slot = Slot { header: PyObject { ob_refcnt: 1, ob_type: TYPE_TYPE }, held: 0 };
        host.slots.push(slot);
        host.bodies.push(Body::Type { tp_base: NULL });
        let mut i: usize = 1;
        while i < BUILTIN_TYPES
            invariant
                1 <= i <= BUILTIN_TYPES,
                host.slots@.len() == i,
                host.bodies@.len() == i,
                host.bindings@.len() == 0,
                host.pending is None,
                forall|k: int| 0 <= k < i ==> #[trigger] host.slots@[k] == slot,
                host.bodies@[0] == (Body::Type { tp_base: NULL }),
                forall|k: int|
                    1 <= k < i ==> #[trigger] host.bodies@[k] == (Body::Type {
                        tp_base: OBJECT_TYPE,
                    }),
            decreases BUILTIN_TYPES - i,
        {
            host.slots.push(slot);
            host.bodies.push(Body::Type { tp_base: OBJECT_TYPE });
            i = i + 1;
        }
        let none = Slot { header: PyObject { ob_refcnt: 1, ob_type: NONE_TYPE }, held: 0 };
        host.slots.push(none);
        host.bodies.push(Body::Object);
        host
    }

    /// Number of records in the table.
    pub fn len(&self) -> (n: usize)
        ensures
            n == self.count(),
    {
        self.slots.len()
    }

    /// Whether `a` is the address of a record.
    pub fn is_valid(&self, a: usize) -> (b: bool)
        ensures
            b == self.valid(a),
    {
        1 <= a && a <= self.slots.len()
    }

    /// How many references to the record at `a` are owned by handles.
    pub fn owned_references(&self, a: usize) -> (n: isize)
        requires
            self.valid(a),
        ensures
            n == self.held(a),
    {
        self.slots[a - 1].held
    }

    /// Appends a record with one reference, which no handle owns, and returns
    /// its address.
    fn push_record(&mut self, ob_type: usize, body: Body) -> (a: usize)
        requires
            old(self).wf(),
            old(self).valid(ob_type),
            old(self).is_type(ob_type),
            body is Type ==> old(self).valid(body->tp_base) && old(self).is_type(body->tp_base),
        ensures
            final(self).wf(),
            final(self).count() == old(self).count() + 1,
            a == final(self).count(),
            !old(self).valid(a),
            final(self).valid(a),
            final(self).grows_from(old(self)),
            final(self).header(a) == (PyObject { ob_refcnt: 1, ob_type }),
            final(self).held(a) == 0,
            final(self).body(a) == body,
    {
        let ghost before = *self;
        self.slots.push(Slot { header: PyObject { ob_refcnt: 1, ob_type }, held: 0 });
        self.bodies.push(body);
        let a = self.slots.len();
        proof {
            assert(self.bindings() == before.bindings());
            assert forall|b: usize| self.valid(b) implies #[trigger] self.record_wf(b) by {
                if b != a {
                    assert(before.record_wf(b));
                }
            }
        }
        a
    }

    /// Creates a type that descends from `base`, and returns the address of
    /// the new record with one reference, which no handle owns.
    pub fn new_type(&mut self, base: usize) -> (a: usize)
        requires
            old(self).wf(),
            old(self).valid(base),
            old(self).is_type(base),
        ensures
            final(self).wf(),
            final(self).count() == old(self).count() + 1,
            a == final(self).count(),
            final(self).grows_from(old(self)),
            final(self).header(a) == (PyObject { ob_refcnt: 1, ob_type: TYPE_TYPE }),
            final(self).held(a) == 0,
            final(self).body(a) == (Body::Type { tp_base: base }),
    {
        self.push_record(TYPE_TYPE, Body::Type { tp_base: base })
    }

    /// Creates a record of type `ob_type` that holds `body`, and returns its
    /// address with one reference, which no handle owns. A body that is itself
    /// a type must name a base that is in the table.
    pub fn new_record(&mut self, ob_type: usize, body: Body) -> (a: usize)
        requires
            old(self).wf(),
            old(self).valid(ob_type),
            old(self).is_type(ob_type),
            body is Type ==> old(self).valid(body->tp_base) && old(self).is_type(body->tp_base),
        ensures
            final(self).wf(),
            final(self).count() == old(self).count() + 1,
            a == final(self).count(),
            final(self).grows_from(old(self)),
            final(self).header(a) == (PyObject { ob_refcnt: 1, ob_type }),
            final(self).held(a) == 0,
            final(self).body(a) == body,
    {
        self.push_record(ob_type, body)
    }
}

impl Host {
    /// Whether `self` holds the records of `old`, each with the same
    /// header, the same owned references and the same contents.
    pub open spec fn same_contents(&self, old: &Host) -> bool {
        &&& self.count() == old.count()
        &&& forall|a: usize|
            #![trigger self.header(a)]
            #![trigger self.held(a)]
            #![trigger self.body(a)]
            old.valid(a) ==> {
                &&& self.header(a) == old.header(a)
                &&& self.held(a) == old.held(a)
                &&& self.body(a) == old.body(a)
            }
    }

    /// Whether `self` holds the records of `old` with the same headers,
    /// the same owned references, the same contents and the same attributes.
    pub open spec fn same_records(&self, old: &Host) -> bool {
        &&& self.same_contents(old)
        &&& self.bindings() == old.bindings()
    }

    /// Whether `self` differs from `old` at most in what the record at `a`
    /// holds after its header.
    pub open spec fn same_but_body(&self, old: &Host, a: usize) -> bool {
        &&& self.count() == old.count()
        &&& self.pending() == old.pending()
        &&& self.bindings() == old.bindings()
        &&& forall|b: usize|
            #![trigger self.header(b)]
            #![trigger self.held(b)]
            #![trigger self.body(b)]
            old.valid(b) ==> {
                &&& self.header(b) == old.header(b)
                &&& self.held(b) == old.held(b)
                &&& b != a ==> self.body(b) == old.body(b)
            }
    }

    /// Whether `self` holds the records of `old` as they were, with the same
    /// attributes and the same pending error, and perhaps records after
    /// them.
    pub open spec fn grows_from(&self, old: &Host) -> bool {
        &&& self.extends(old)
        &&& self.pending() == old.pending()
        &&& forall|b: usize|
            #![trigger self.header(b)]
            #![trigger self.held(b)]
            old.valid(b) ==> {
                &&& self.refcnt(b) == old.refcnt(b)
                &&& self.held(b) == old.held(b)
            }
    }

    /// The header of the record at `a`.
    pub fn get_header(&self, a: usize) -> (h: PyObject)
        requires
            self.valid(a),
        ensures
            h == self.header(a),
    {
        self.slots[a - 1].header
    }

    /// What the record at `a` holds after its header.
    pub fn get_body(&self, a: usize) -> (b: &Body)
        requires
            self.wf(),
            self.valid(a),
        ensures
            *b == self.body(a),
    {
        &self.bodies[a - 1]
    }

    /// The error that is pending, if any.
    pub fn get_pending(&self) -> (p: Option<PyErrState>)
        ensures
            p == self.pending(),
    {
        self.pending
    }

    /// Replaces the pending error and leaves the records alone.
    pub fn set_pending(&mut self, p: Option<PyErrState>)
        requires
            old(self).wf(),
        ensures
            final(self).wf(),
            final(self).same_records(old(self)),
            final(self).pending() == p,
    {
        self.pending = p;
        proof {
            lemma_bindings_wf_kept(old(self), self);
            assert forall|a: usize| self.valid(a) implies #[trigger] self.record_wf(a) by {
                assert(old(self).record_wf(a));
            }
        }
    }

    /// Sets the reference count of the record at `a` and the number of its
    /// references that handles own.
    pub(crate) fn set_counts(&mut self, a: usize, refcnt: isize, held: isize)
        requires
            old(self).wf(),
            old(self).valid(a),
            0 <= held <= refcnt,
        ensures
            final(self).wf(),
            final(self).same_but_counts(old(self), a),
            final(self).refcnt(a) == refcnt,
            final(self).held(a) == held,
    {
        let ob_type = self.slots[a - 1].header.ob_type;
        self.slots.set(a - 1, Slot { header: PyObject { ob_refcnt: refcnt, ob_type }, held });
        proof {
            lemma_bindings_wf_kept(old(self), self);
            assert forall|b: usize| self.valid(b) implies #[trigger] self.record_wf(b) by {
                assert(old(self).record_wf(b));
            }
        }
    }

    /// Stores `v` in the slot `i` of the list at `a`.
    pub fn set_list_item(&mut self, a: usize, i: usize, v: usize)
        requires
            old(self).wf(),
            old(self).valid(a),
            old(self).body(a) is List,
            i < old(self).body(a)->ob_item@.len(),
        ensures
            final(self).wf(),
            final(self).same_but_body(old(self), a),
            final(self).body(a) is List,
            final(self).body(a)->ob_item@ == old(self).body(a)->ob_item@.update(i as int, v),
            final(self).body(a)->allocated == old(self).body(a)->allocated,
    {
        let (mut items, allocated) = match &self.bodies[a - 1] {
            Body::List { ob_item, allocated } => (ob_item.clone(), *allocated),
            _ => (Vec::new(), 0),
        };
        items.set(i, v);
        self.set_body(a, Body::List { ob_item: items, allocated });
    }

    /// Replaces what the record at `a` holds after its header. This is for
    /// records that are no types: a type keeps its base, and no record
    /// becomes a type.
    pub fn set_body(&mut self, a: usize, body: Body)
        requires
            old(self).wf(),
            old(self).valid(a),
            !old(self).is_type(a),
            !(body is Type),
        ensures
            final(self).wf(),
            final(self).same_but_body(old(self), a),
            final(self).body(a) == body,
    {
        self.bodies.set(a - 1, body);
        proof {
            lemma_bindings_wf_kept(old(self), self);
            assert forall|b: usize| self.valid(b) implies #[trigger] self.record_wf(b) by {
                assert(old(self).record_wf(b));
            }
        }
    }

    /// Binds the attribute `name` of the record at `owner` to the record at
    /// `value`, or removes the attribute where `value` is null.
    pub(crate) fn bind(&mut self, owner: usize, name: String, value: usize)
        requires
            old(self).wf(),
            value == NULL || old(self).valid(value),
        ensures
            final(self).wf(),
            final(self).same_contents(old(self)),
            final(self).pending() == old(self).pending(),
            final(self).bindings() == old(self).bindings().push((owner, name@, value)),
    {
        let ghost entry = (owner, name@, value);
        self.bindings.push(Attr { owner, name, value });
        proof {
            assert(self.bindings() =~= old(self).bindings().push(entry));
            assert forall|b: usize| self.valid(b) implies #[trigger] self.record_wf(b) by {
                assert(old(self).record_wf(b));
            }
        }
    }

    /// The address of the value of the attribute `name` of the record at `o`:
    /// null where the record has no such attribute.
    pub fn find(&self, o: usize, name: &String) -> (v: usize)
        requires
            self.wf(),
        ensures
            v == self.attr(o, name@),
            v == NULL || self.valid(v),
    {
        let mut i: usize = self.bindings.len();
        assert(self.bindings().subrange(0, i as int) =~= self.bindings());
        while i > 0
            invariant
                i <= self.bindings@.len(),
                self.wf(),
                lookup(self.bindings(), o, name@) == lookup(
                    self.bindings().subrange(0, i as int),
                    o,
                    name@,
                ),
            decreases i,
        {
            let entry = &self.bindings[i - 1];
            let ghost prefix = self.bindings().subrange(0, i as int);
            assert(prefix.drop_last() =~= self.bindings().subrange(0, i - 1));
            if entry.owner == o && entry.name == *name {
                return entry.value;
            }
            i = i - 1;
        }
        NULL
    }
}

/// While the records keep their types and contents, descent between types
/// stays as it was.
pub proof fn lemma_subtype_extends(old: &Host, new: &Host, a: usize, b: usize)
    requires
        old.wf(),
        new.extends(old),
        a == NULL || old.valid(a),
    ensures
        new.subtype(a, b) == old.subtype(a, b),
    decreases a,
{
    if a != NULL && a != b && old.is_type(a) && old.base_of(a) < a {
        lemma_subtype_extends(old, new, old.base_of(a), b);
    }
}

/// Bindings that named records of a table name records of any table that
/// holds at least as many.
pub proof fn lemma_bindings_wf_kept(old: &Host, new: &Host)
    requires
        old.bindings_wf(),
        new.bindings() == old.bindings(),
        old.count() <= new.count(),
    ensures
        new.bindings_wf(),
{
}

/// A table that extends one that extends a third extends the third.
pub proof fn lemma_extends_transitive(a: &Host, b: &Host, c: &Host)
    requires
        b.extends(a),
        c.extends(b),
    ensures
        c.extends(a),
{
}

/// The value that a lookup finds among bindings that name records of a
/// table is null or the address of a record of that table.
pub proof fn lemma_lookup_valid(
    host: &Host,
    bindings: Seq<(usize, Seq<char>, usize)>,
    o: usize,
    name: Seq<char>,
)
    requires
        forall|i: int|
            0 <= i < bindings.len() ==> {
                ||| (#[trigger] bindings[i]).2 == NULL
                ||| host.valid(bindings[i].2)
            },
    ensures
        lookup(bindings, o, name) == NULL || host.valid(lookup(bindings, o, name)),
    decreases bindings.len(),
{
    if bindings.len() > 0 && !(bindings.last().0 == o && bindings.last().1 == name) {
        lemma_lookup_valid(host, bindings.drop_last(), o, name);
    }
}

/// The value of an attribute is null or the address of a record.
pub proof fn lemma_attr_valid(host: &Host, o: usize, name: Seq<char>)
    requires
        host.bindings_wf(),
    ensures
        host.attr(o, name) == NULL || host.valid(host.attr(o, name)),
{
    lemma_lookup_valid(host, host.bindings(), o, name);
}

/// Every type descends from the root type.
pub proof fn lemma_descends_from_object(host: &Host, t: usize)
    requires
        host.wf(),
        host.valid(t),
        host.is_type(t),
    ensures
        host.subtype(t, OBJECT_TYPE),
    decreases t,
{
    assert(host.record_wf(t));
    if t != OBJECT_TYPE {
        lemma_descends_from_object(host, host.base_of(t));
    }
}

} // verus!
