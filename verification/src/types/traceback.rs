//! The view of a traceback: the record of where an error was raised.

use crate::conversion::{PyTryFrom, PyTypeObject};
use crate::err::{downcast_error, error_on_minusone, fetched, PyErr, PyErrKind, PyResult};
use crate::ffi::attribute::attribute_error;
use crate::ffi::foreign::ForeignCall;
use crate::ffi::object::{
    lemma_attr_valid, lemma_extends_transitive, lemma_subtype_extends, Body, Host, NULL,
    TRACEBACK_TYPE, UNICODE_TYPE,
};
use crate::handle::{adopt, release, type_matches, Owned, Typed};
use crate::python::Python;
use crate::types::any::PyAny;
use crate::types::call::one_if;
use crate::types::native::PyString;
use vstd::prelude::*;

verus! {

/// The view of a record that was checked to be a traceback.
#[derive(Clone, Copy)]
pub struct PyTraceback<'py>(PyAny<'py>);

impl<'py> PyTypeObject for PyTraceback<'py> {
    open spec fn type_address() -> usize {
        TRACEBACK_TYPE
    }

    fn type_object(py: Python<'_>) -> (t: usize) {
        TRACEBACK_TYPE
    }
}

impl<'py> PyTryFrom<'py> for PyTraceback<'py> {
    open spec fn view_addr(&self) -> usize {
        self.addr()
    }

    fn from_typed(handle: Typed<'py>) -> (v: Self) {
        PyTraceback(PyAny::from_borrowed(handle.as_borrowed()))
    }
}

/// What the runtime answered while a traceback was formatted: the address
/// of the module of text streams, the address of the stream that was made
/// to print into, the status of printing, and the address of the text that
/// the stream gave back.
#[derive(Clone, Copy, Debug, PartialEq, Eq, Structural)]
pub struct FormatAnswers {
    pub io: usize,
    pub string_io: usize,
    pub print_status: i32,
    pub value: usize,
}

/// The address of the constructor of streams in the module at `io`.
pub open spec fn stream_class(host: &Host, io: usize) -> usize {
    host.attr(io, "StringIO"@)
}

/// The address of the method of the stream at `string_io` that gives its
/// text back.
pub open spec fn getvalue_method(host: &Host, string_io: usize) -> usize {
    host.attr(string_io, "getvalue"@)
}

/// Whether formatting gets as far as making the stream.
pub open spec fn makes_stream(host: &Host, a: FormatAnswers) -> bool {
    a.io != NULL && stream_class(host, a.io) != NULL
}

/// Whether formatting gets as far as asking the stream for its text.
pub open spec fn asks_value(host: &Host, a: FormatAnswers) -> bool {
    &&& makes_stream(host, a)
    &&& a.string_io != NULL
    &&& a.print_status != -1
    &&& getvalue_method(host, a.string_io) != NULL
}

/// How many references to the record at `b` formatting drops: one for each
/// answer that was looked at and named that record.
pub open spec fn released(host: &Host, a: FormatAnswers, b: usize) -> int {
    one_if(b, a.io) + if makes_stream(host, a) {
        one_if(b, a.string_io)
    } else {
        0
    } + if asks_value(host, a) {
        one_if(b, a.value)
    } else {
        0
    }
}

/// The text of a traceback, given what the runtime answered: the text of
/// the record at `value`, where every step on the way succeeded; else the
/// error of the first step that failed.
pub open spec fn format_outcome(host: &Host, a: FormatAnswers) -> PyResult<Seq<char>> {
    let null = PyErr { kind: PyErrKind::NullHandle, state: fetched(host.pending()) };
    let missing = PyErr { kind: PyErrKind::NullHandle, state: attribute_error() };
    if a.io == NULL {
        Err(null)
    } else if stream_class(host, a.io) == NULL {
        Err(missing)
    } else if a.string_io == NULL {
        Err(null)
    } else if a.print_status == -1 {
        Err(PyErr { kind: PyErrKind::SentinelFailure, state: fetched(host.pending()) })
    } else if getvalue_method(host, a.string_io) == NULL {
        Err(missing)
    } else if a.value == NULL {
        Err(null)
    } else if !type_matches(host, a.value, UNICODE_TYPE, false) {
        Err(downcast_error())
    } else {
        match host.body(a.value) {
            Body::Unicode { text } => Ok(text@),
            _ => Err(downcast_error()),
        }
    }
}

/// Whether formatting left the pending error in place: it does unless a
/// step failed inside the runtime.
pub open spec fn keeps_pending(host: &Host, a: FormatAnswers) -> bool {
    match format_outcome(host, a) {
        Ok(_) => true,
        Err(e) => e == downcast_error(),
    }
}

/// Whether the answers fit the runtime's table: every record that
/// formatting drops a reference to has that many references that no handle
/// owns, and the references taken on the way fit in the counts.
pub open spec fn answers_fit(host: &Host, a: FormatAnswers) -> bool {
    &&& forall|b: usize| #[trigger]
        released(host, a, b) > 0 ==> host.valid(b) && host.unclaimed(b) >= released(host, a, b)
    &&& makes_stream(host, a) ==> host.refcnt(stream_class(host, a.io)) < isize::MAX
    &&& asks_value(host, a) ==> host.refcnt(getvalue_method(host, a.string_io)) < isize::MAX
}

/// The name of the module of text streams.
pub const IO_MODULE: &'static str = "io";

/// The call that formatting makes next, given the answers so far: import
/// the module of text streams, make a stream, print the traceback at `tb`
/// into it, ask the stream for its text. None where formatting is through
/// or a step failed.
pub open spec fn next_format_call(
    host: &Host,
    tb: usize,
    io: Option<usize>,
    string_io: Option<usize>,
    print_status: Option<i32>,
    value: Option<usize>,
) -> Option<ForeignCall> {
    match io {
        None => Some(ForeignCall::PyImport_Import { name: IO_MODULE }),
        Some(m) => if m == NULL || stream_class(host, m) == NULL {
            None
        } else {
            match string_io {
                None => Some(ForeignCall::PyObject_CallNoArgs { func: stream_class(host, m) }),
                Some(s) => if s == NULL {
                    None
                } else {
                    match print_status {
                        None => Some(ForeignCall::PyTraceBack_Print { v: tb, f: s }),
                        Some(status) => if status == -1 || getvalue_method(host, s) == NULL
                            || value is Some {
                            None
                        } else {
                            Some(ForeignCall::PyObject_CallNoArgs { func: getvalue_method(host, s) })
                        },
                    }
                },
            }
        },
    }
}

/// The answers that formatting looks at are those that were asked for: the
/// stream is looked at where a call made it, and the text where the stream
/// was asked for it.
pub proof fn lemma_asked_is_looked_at(host: &Host, tb: usize, a: FormatAnswers)
    ensures
        makes_stream(host, a) == (next_format_call(host, tb, Some(a.io), None, None, None)
            is Some),
        asks_value(host, a) == (next_format_call(
            host,
            tb,
            Some(a.io),
            Some(a.string_io),
            Some(a.print_status),
            None,
        ) is Some),
        next_format_call(
            host,
            tb,
            Some(a.io),
            Some(a.string_io),
            Some(a.print_status),
            Some(a.value),
        ) is None,
{
}

impl<'py> PyTraceback<'py> {
    /// The call that formatting makes next, given the answers so far.
    pub fn next_call(
        &self,
        host: &Host,
        io: Option<usize>,
        string_io: Option<usize>,
        print_status: Option<i32>,
        value: Option<usize>,
    ) -> (call: Option<ForeignCall>)
        requires
            host.wf(),
        ensures
            call == next_format_call(host, self.addr(), io, string_io, print_status, value),
    {
        let m = match io {
            None => {
                return Some(ForeignCall::PyImport_Import { name: IO_MODULE });
            },
            Some(m) => m,
        };
        if m == NULL {
            return None;
        }
        let class = host.find(m, &"StringIO".to_owned());
        if class == NULL {
            return None;
        }
        let s = match string_io {
            None => {
                return Some(ForeignCall::PyObject_CallNoArgs { func: class });
            },
            Some(s) => s,
        };
        if s == NULL {
            return None;
        }
        let status = match print_status {
            None => {
                return Some(ForeignCall::PyTraceBack_Print { v: self.0.as_ptr(), f: s });
            },
            Some(status) => status,
        };
        if status == -1 {
            return None;
        }
        let getvalue = host.find(s, &"getvalue".to_owned());
        if getvalue == NULL || value.is_some() {
            None
        } else {
            Some(ForeignCall::PyObject_CallNoArgs { func: getvalue })
        }
    }

    /// The address of the record.
    pub closed spec fn addr(&self) -> usize {
        self.0.addr()
    }

    /// The same record, seen as any record.
    pub fn as_any(&self) -> (any: PyAny<'py>)
        ensures
            any.addr() == self.addr(),
    {
        self.0
    }

    /// Formats the traceback as text, given what the runtime answered to
    /// the calls that `next_call` asked for. A stream is made, the traceback
    /// is printed into it, and the stream's text is read back. The first
    /// step that fails ends the formatting with its error. Every reference
    /// that was taken on the way is dropped again, whatever the outcome.
    pub fn format(&self, host: &mut Host, answers: FormatAnswers) -> (r: PyResult<String>)
        requires
            old(host).wf(),
            answers_fit(old(host), answers),
        ensures
            final(host).wf(),
            final(host).count() == old(host).count(),
            final(host).extends(old(host)),
            match r {
                Ok(s) => format_outcome(old(host), answers) == Ok::<Seq<char>, PyErr>(s@),
                Err(e) => format_outcome(old(host), answers) == Err::<Seq<char>, PyErr>(e),
            },
            final(host).pending() == if keeps_pending(old(host), answers) {
                old(host).pending()
            } else {
                None
            },
            forall|b: usize|
                #![trigger final(host).header(b)]
                #![trigger final(host).held(b)]
                old(host).valid(b) ==> {
                    &&& final(host).refcnt(b) == old(host).refcnt(b) - released(
                        old(host),
                        answers,
                        b,
                    )
                    &&& final(host).held(b) == old(host).held(b)
                },
    {
        let py = self.0.py();
        let ghost h0 = *host;
        let sio = match open_stream(py, host, answers) {
            Ok(s) => s,
            Err(e) => {
                return Err(e);
            },
        };
        let ghost s = sio.addr();
        let printed = error_on_minusone(py, host, answers.print_status);
        let ghost h2 = *host;
        let text = match printed {
            Ok(_) => {
                proof {
                    let m = getvalue_method(&h0, s);
                    if m != NULL {
                        lemma_attr_valid(&h0, s, "getvalue"@);
                        if answers.value != NULL {
                            assert(released(&h0, answers, answers.value) > 0);
                            assert(h0.record_wf(answers.value));
                            lemma_subtype_extends(
                                &h0,
                                &h2,
                                h0.type_of(answers.value),
                                UNICODE_TYPE,
                            );
                        }
                    }
                }
                read_stream(py, host, &sio, answers.value)
            },
            Err(e) => Err(e),
        };
        release(py, host, sio);
        text
    }
}

/// What reading the text of the stream at `s` gives, where its method for
/// that returned the address `value`.
pub open spec fn read_outcome(host: &Host, s: usize, value: usize) -> PyResult<Seq<char>> {
    if getvalue_method(host, s) == NULL {
        Err(PyErr { kind: PyErrKind::NullHandle, state: attribute_error() })
    } else if value == NULL {
        Err(PyErr { kind: PyErrKind::NullHandle, state: fetched(host.pending()) })
    } else if !type_matches(host, value, UNICODE_TYPE, false) {
        Err(downcast_error())
    } else {
        match host.body(value) {
            Body::Unicode { text } => Ok(text@),
            _ => Err(downcast_error()),
        }
    }
}

/// Makes the stream to print into: takes the module of text streams at
/// `answers.io`, looks up its constructor of streams, and adopts the stream
/// at `answers.string_io` that the constructor returned. The references to
/// the module and to the constructor are dropped again.
fn open_stream(py: Python<'_>, host: &mut Host, answers: FormatAnswers) -> (r: PyResult<
    Owned,
>)
    requires
        old(host).wf(),
        answers_fit(old(host), answers),
    ensures
        final(host).wf(),
        final(host).count() == old(host).count(),
        final(host).extends(old(host)),
        r is Ok <==> makes_stream(old(host), answers) && answers.string_io != NULL,
        r is Ok ==> {
            &&& r->Ok_0.addr() == answers.string_io
            &&& r->Ok_0.wf(final(host))
            &&& final(host).pending() == old(host).pending()
        },
        r is Err ==> {
            &&& format_outcome(old(host), answers) == Err::<Seq<char>, PyErr>(r->Err_0)
            &&& final(host).pending() is None
            &&& !keeps_pending(old(host), answers)
        },
        forall|b: usize|
            #![trigger final(host).header(b)]
            #![trigger final(host).held(b)]
            old(host).valid(b) ==> {
                &&& final(host).refcnt(b) == old(host).refcnt(b) - if r is Ok {
                    one_if(b, answers.io)
                } else {
                    released(old(host), answers, b)
                }
                &&& final(host).held(b) == old(host).held(b) + if r is Ok {
                    one_if(b, answers.string_io)
                } else {
                    0
                }
            },
{
    let ghost h0 = *host;
    proof {
        if answers.io != NULL {
            assert(released(&h0, answers, answers.io) > 0);
        }
    }
    let io = match adopt(py, host, answers.io) {
        Ok(h) => h,
        Err(e) => {
            return Err(e);
        },
    };
    proof {
        let m = stream_class(&h0, answers.io);
        if m != NULL {
            lemma_attr_valid(&h0, answers.io, "StringIO"@);
            if answers.string_io != NULL {
                assert(released(&h0, answers, answers.string_io) > 0);
            }
        }
    }
    let made = PyAny::from_borrowed(io.as_borrowed(py)).call_method0(
        host,
        "StringIO",
        answers.string_io,
    );
    release(py, host, io);
    made
}

/// Reads the text of the stream `sio`: looks up its method for that, and
/// reads the text of the record at `value` that the method returned. The
/// references to the method and to the text are dropped again.
fn read_stream(py: Python<'_>, host: &mut Host, sio: &Owned, value: usize) -> (r:
    PyResult<String>)
    requires
        old(host).wf(),
        old(host).valid(sio.addr()),
        getvalue_method(old(host), sio.addr()) != NULL ==> {
            &&& old(host).refcnt(getvalue_method(old(host), sio.addr())) < isize::MAX
            &&& value != NULL ==> old(host).valid(value) && old(host).unclaimed(value) > 0
        },
    ensures
        final(host).wf(),
        final(host).count() == old(host).count(),
        final(host).extends(old(host)),
        match r {
            Ok(s) => read_outcome(old(host), sio.addr(), value) == Ok::<Seq<char>, PyErr>(s@),
            Err(e) => read_outcome(old(host), sio.addr(), value) == Err::<Seq<char>, PyErr>(e),
        },
        final(host).pending() == if r is Err && r->Err_0 != downcast_error() {
            None
        } else {
            old(host).pending()
        },
        forall|b: usize|
            #![trigger final(host).header(b)]
            #![trigger final(host).held(b)]
            old(host).valid(b) ==> {
                &&& final(host).refcnt(b) == old(host).refcnt(b) - if getvalue_method(
                    old(host),
                    sio.addr(),
                ) != NULL {
                    one_if(b, value)
                } else {
                    0
                }
                &&& final(host).held(b) == old(host).held(b)
            },
{
    let ghost h0 = *host;
    let got = PyAny::from_borrowed(sio.as_borrowed(py)).call_method0(host, "getvalue", value);
    let ghost h1 = *host;
    let v = match got {
        Ok(v) => v,
        Err(e) => {
            return Err(e);
        },
    };
    proof {
        assert(h0.record_wf(value));
        lemma_subtype_extends(&h0, &h1, h0.type_of(value), UNICODE_TYPE);
    }
    let text: PyResult<String> = match PyAny::from_borrowed(v.as_borrowed(py)).downcast::<
        PyString<'_>,
    >(host) {
        Ok(string) => match string.to_str(host) {
            Ok(t) => Ok(t.to_owned()),
            Err(e) => Err(e),
        },
        Err(e) => Err(PyErr::from_downcast(e)),
    };
    release(py, host, v);
    text
}

} // verus!
