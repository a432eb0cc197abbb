//! Date and time accessors that the host runtime exports itself: the
//! re-exported-symbol strategy, and the choice between the strategies.
//!
//! Under this strategy an accessor is not written again: it is bound to the
//! symbol of the same name that the runtime variant exports under its own
//! prefix. What stands here is the table of names.

use vstd::prelude::*;
use vstd::string::StrSliceExecFns;
use vstd::string::StringExecFns;

verus! {

/// The strategies by which a field of a date or time record is read. One is
/// chosen for a whole build.
#[derive(Clone, Copy, Debug, PartialEq, Eq, Structural)]
pub enum Backend {
    /// Fields are read from the record's bytes.
    DirectLayout,
    /// Fields are read through the record's attributes.
    Reflective,
    /// Fields are read by the runtime's own exported accessors.
    ExportedSymbol,
}

/// The strategy for a build, given which runtime variants it targets: the
/// variant that exports its accessors, the variant that only offers
/// attributes, or neither. A build that targets both has no strategy.
pub fn select_backend(exports_accessors: bool, attributes_only: bool) -> (b: Option<Backend>)
    ensures
        b == if exports_accessors && attributes_only {
            None::<Backend>
        } else if exports_accessors {
            Some(Backend::ExportedSymbol)
        } else if attributes_only {
            Some(Backend::Reflective)
        } else {
            Some(Backend::DirectLayout)
        },
{
    if exports_accessors && attributes_only {
        None
    } else if exports_accessors {
        Some(Backend::ExportedSymbol)
    } else if attributes_only {
        Some(Backend::Reflective)
    } else {
        Some(Backend::DirectLayout)
    }
}

/// Whether `name` starts as the names of the runtime's interface do.
pub open spec fn is_api_name(name: Seq<char>) -> bool {
    name.len() >= 2 && name[0] == 'P' && name[1] == 'y'
}

/// The name under which the runtime variant exports the accessor `name`: the
/// variant's prefix takes the place of the common one. Another name stays as
/// it is.
pub open spec fn exported_name(name: Seq<char>) -> Seq<char> {
    if is_api_name(name) {
        seq!['P', 'y', 'P', 'y'] + name.skip(2)
    } else {
        name
    }
}

/// The name under which the runtime variant exports the accessor `name`.
pub fn exported_symbol(name: &str) -> (s: String)
    ensures
        s@ == exported_name(name@),
{
    let n = name.unicode_len();
    if n >= 2 && name.get_char(0) == 'P' && name.get_char(1) == 'y' {
        let prefix = String::from_str("PyPy");
        proof {
            reveal_strlit("PyPy");
        }
        prefix.concat(name.substring_char(2, n))
    } else {
        name.to_owned()
    }
}

/// Two accessors are never exported under one name.
pub proof fn lemma_exported_names_differ(a: Seq<char>, b: Seq<char>)
    requires
        is_api_name(a),
        is_api_name(b),
        exported_name(a) == exported_name(b),
    ensures
        a == b,
{
    let ea = exported_name(a);
    let eb = exported_name(b);
    assert(a.len() == ea.len() - 2);
    assert forall|i: int| 0 <= i < a.len() implies a[i] == b[i] by {
        if i >= 2 {
            assert(ea[i + 2] == a.skip(2)[i - 2]);
        }
    }
}

} // verus!
