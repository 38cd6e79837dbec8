//! Concurrent sets of names.
//!
//! The names of the components and behaviours applied to a reactive instance
//! live in `dashmap::DashSet<String>`: a sharded, thread-safe set, so that
//! membership checks and updates on different names do not interfere.  The
//! set's contents are modelled by `string_set_view`, a set of character
//! sequences; every operation of this module states how it changes or reads
//! that model.

use vstd::prelude::*;

verus! {

/// `dashmap::DashSet` carried as an opaque concurrent set.
#[verifier::external_type_specification]
#[verifier::external_body]
#[verifier::reject_recursive_types(K)]
#[verifier::reject_recursive_types(S)]
pub struct ExDashSet<K, S>(dashmap::DashSet<K, S>);

/// The names a concurrent set holds.
pub uninterp spec fn string_set_view(s: dashmap::DashSet<String>) -> Set<Seq<char>>;

/// Relies on `dashmap::DashSet::new`: a newly constructed set is empty.
#[verifier::external_body]
pub fn string_set_new() -> (s: dashmap::DashSet<String>)
    ensures
        string_set_view(s) == Set::<Seq<char>>::empty(),
{
    dashmap::DashSet::new()
}

/// Relies on `dashmap::DashSet::insert`: after the call the name is in the
/// set, nothing else changes, and the result says whether it was new.
#[verifier::external_body]
pub fn string_set_insert(s: &mut dashmap::DashSet<String>, name: String) -> (r: bool)
    ensures
        string_set_view(*final(s)) == string_set_view(*old(s)).insert(name@),
        r == !string_set_view(*old(s)).contains(name@),
{
    s.insert(name)
}

/// Relies on `dashmap::DashSet::remove`: after the call the name is not in
/// the set, nothing else changes, and the result says whether it was there.
#[verifier::external_body]
pub fn string_set_remove(s: &mut dashmap::DashSet<String>, name: &str) -> (r: bool)
    ensures
        string_set_view(*final(s)) == string_set_view(*old(s)).remove(name@),
        r == string_set_view(*old(s)).contains(name@),
{
    s.remove(name).is_some()
}

/// Relies on `dashmap::DashSet::contains`: whether the name is in the set.
#[verifier::external_body]
pub fn string_set_contains(s: &dashmap::DashSet<String>, name: &str) -> (r: bool)
    ensures
        r == string_set_view(*s).contains(name@),
{
    s.contains(name)
}

} // verus!
