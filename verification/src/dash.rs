use vstd::prelude::*;

use dashmap::DashMap;

use crate::level::Severity;
use crate::registry::CategoryEntry;

verus! {

#[verifier::external_type_specification]
#[verifier::external_body]
#[verifier::reject_recursive_types(K)]
#[verifier::reject_recursive_types(V)]
#[verifier::reject_recursive_types(S)]
pub struct ExDashMap<K, V, S>(DashMap<K, V, S>);

/// The concurrent map at the heart of the registry, keyed by category name.
pub type Entries = DashMap<String, CategoryEntry>;

/// What the map holds: its entries, keyed by category name.
pub uninterp spec fn dash_view(m: Entries) -> Map<Seq<char>, CategoryEntry>;

/// Relies on dashmap::DashMap::new: creates an empty map.
#[verifier::external_body]
pub(crate) fn dash_new() -> (r: Entries)
    ensures
        dash_view(r) =~= Map::empty(),
{
    DashMap::new()
}

/// Relies on dashmap::DashMap::contains_key: whether the map holds an entry
/// under `k`.
#[verifier::external_body]
pub(crate) fn dash_contains(m: &Entries, k: &str) -> (b: bool)
    ensures
        b == dash_view(*m).dom().contains(k@),
{
    m.contains_key(k)
}

/// Relies on dashmap::DashMap::get: the entry stored under `k`, cloned, or
/// `None` when there is none.
#[verifier::external_body]
pub(crate) fn dash_get(m: &Entries, k: &str) -> (r: Option<CategoryEntry>)
    ensures
        dash_view(*m).dom().contains(k@) ==> r == Some(dash_view(*m)[k@]),
        !dash_view(*m).dom().contains(k@) ==> r is None,
{
    m.get(k).map(|g| g.value().clone())
}

/// Relies on dashmap::DashMap::entry and Entry::or_insert: insert-if-absent
/// under category-scoped locking — an entry that is already present is kept
/// exactly as it is, and at most one insertion ever succeeds per key.
#[verifier::external_body]
pub(crate) fn dash_insert_absent(m: &mut Entries, k: &str, v: CategoryEntry)
    ensures
        dash_view(*old(m)).dom().contains(k@) ==> dash_view(*final(m)) == dash_view(*old(m)),
        !dash_view(*old(m)).dom().contains(k@) ==> dash_view(*final(m)) == dash_view(*old(m)).insert(
            k@,
            v,
        ),
{
    m.entry(k.to_owned()).or_insert(v);
}

/// Relies on dashmap::DashMap::entry and Entry::and_modify: mutates the
/// entry under `k` in place through the verified `set_override`, keeping its
/// handle; does nothing when `k` is absent.
#[verifier::external_body]
pub(crate) fn dash_set_level(m: &mut Entries, k: &str, level: Severity)
    ensures
        dash_view(*old(m)).dom().contains(k@) ==> dash_view(*final(m)) == dash_view(*old(m)).insert(
            k@,
            (CategoryEntry {
                override_level: Some(level),
                handle: dash_view(*old(m))[k@].handle,
            }),
        ),
        !dash_view(*old(m)).dom().contains(k@) ==> dash_view(*final(m)) == dash_view(*old(m)),
{
    m.entry(k.to_owned()).and_modify(|e| crate::registry::set_override(e, level));
}

/// Relies on dashmap::DashMap::iter: hands out the override level of every
/// entry, in whatever order the map is walked. Every element of the result
/// is some entry's override level, and every entry's override level occurs
/// in the result.
#[verifier::external_body]
pub(crate) fn dash_override_levels(m: &Entries) -> (v: Vec<Option<Severity>>)
    ensures
        forall|i: int|
            0 <= i < v@.len() ==> exists|c: Seq<char>|
                #[trigger] dash_view(*m).dom().contains(c) && dash_view(*m)[c].override_level == #[trigger] v@[i],
        forall|c: Seq<char>| #[trigger]
            dash_view(*m).dom().contains(c) ==> v@.contains(dash_view(*m)[c].override_level),
{
    m.iter().map(|e| e.value().override_level).collect()
}

} // verus!
