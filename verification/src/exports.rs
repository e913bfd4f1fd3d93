//! Finding the procedure that a script calls among a component's exports.

use crate::demo::same_text;
use crate::miden::{export_digest, export_names, exported_procedures};
use crate::text::is_digest_hex;
use miden_objects::account::AccountComponent;
use vstd::prelude::*;

verus! {

/// Whether `at` is the first position at which `names` holds `wanted`.
pub open spec fn is_first_named(names: Seq<Seq<char>>, wanted: Seq<char>, at: int) -> bool {
    &&& 0 <= at < names.len()
    &&& names[at] == wanted
    &&& forall|before: int| 0 <= before < at ==> names[before] != wanted
}

/// Whether `names` holds `wanted`.
pub open spec fn holds_name(names: Seq<Seq<char>>, wanted: Seq<char>) -> bool {
    exists|at: int| 0 <= at < names.len() && names[at] == wanted
}

/// The names of a list of exports.
pub open spec fn names_of(exports: Seq<(Seq<char>, Seq<char>)>) -> Seq<Seq<char>> {
    Seq::new(exports.len(), |i: int| exports[i].0)
}

/// The digest of the first export that goes by `wanted`, if there is one.
pub open spec fn digest_of_export(exports: Seq<(Seq<char>, Seq<char>)>, wanted: Seq<char>)
    -> Option<Seq<char>> {
    if exists|at: int| is_first_named(names_of(exports), wanted, at) {
        Some(exports[choose|at: int| is_first_named(names_of(exports), wanted, at)].1)
    } else {
        None
    }
}

/// The position of the first name that equals `wanted`.
pub fn find_named(names: &Vec<String>, wanted: &str) -> (found: Option<usize>)
    ensures
        found matches Some(at) ==> is_first_named(names.deep_view(), wanted@, at as int),
        found is None ==> !holds_name(names.deep_view(), wanted@),
{
    let mut at: usize = 0;
    while at < names.len()
        invariant
            at <= names.len(),
            forall|before: int| 0 <= before < at ==> names.deep_view()[before] != wanted@,
        decreases names.len() - at,
    {
        assert(names.deep_view()[at as int] == names@[at as int]@);
        if same_text(names[at].as_str(), wanted) {
            return Some(at);
        }
        at = at + 1;
    }
    None
}

/// A name that the list holds has a first position.
pub proof fn lemma_held_name_has_first(names: Seq<Seq<char>>, wanted: Seq<char>, at: int)
    requires
        0 <= at < names.len(),
        names[at] == wanted,
    ensures
        exists|first: int| first <= at && is_first_named(names, wanted, first),
    decreases at,
{
    if exists|before: int| 0 <= before < at && names[before] == wanted {
        let before = choose|before: int| 0 <= before < at && names[before] == wanted;
        lemma_held_name_has_first(names, wanted, before);
    } else {
        assert(is_first_named(names, wanted, at));
    }
}

/// A digest is found exactly when the name is exported.
pub proof fn lemma_digest_iff_exported(exports: Seq<(Seq<char>, Seq<char>)>, wanted: Seq<char>)
    ensures
        digest_of_export(exports, wanted) is Some <==> holds_name(names_of(exports), wanted),
{
    let names = names_of(exports);
    if holds_name(names, wanted) {
        let at = choose|at: int| 0 <= at < names.len() && names[at] == wanted;
        lemma_held_name_has_first(names, wanted, at);
    }
}

/// The digest, in hexadecimal, of the first procedure that the component exports under `wanted`.
pub fn resolve_export(component: &AccountComponent, wanted: &str) -> (digest: Option<String>)
    ensures
        digest.is_some() == digest_of_export(exported_procedures(*component), wanted@).is_some(),
        digest matches Some(hex) ==> Some(hex@) == digest_of_export(
            exported_procedures(*component),
            wanted@,
        ) && is_digest_hex(hex@),
        digest is None <==> !holds_name(names_of(exported_procedures(*component)), wanted@),
{
    let names = export_names(component);
    let ghost exports = exported_procedures(*component);
    proof {
        assert(names.deep_view() =~= names_of(exports)) by {
            assert forall|i: int| 0 <= i < names@.len() implies names.deep_view()[i] == names_of(
                exports,
            )[i] by {
                assert(names.deep_view()[i] == names@[i]@);
            }
        }
        lemma_digest_iff_exported(exports, wanted@);
    }
    match find_named(&names, wanted) {
        None => None,
        Some(at) => {
            proof {
                let chosen = choose|k: int| is_first_named(names_of(exports), wanted@, k);
                assert(is_first_named(names_of(exports), wanted@, at as int));
                assert(chosen == at) by {
                    if chosen < at {
                        assert(names_of(exports)[chosen] == wanted@);
                    } else if at < chosen {
                        assert(names_of(exports)[at as int] == wanted@);
                    }
                }
            }
            Some(export_digest(component, at))
        },
    }
}

} // verus!
