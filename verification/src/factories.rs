//! The orchestrator's table of registered factories, held in a concurrent
//! `papaya::HashMap` keyed by factory id.

use vstd::prelude::*;

verus! {

/// What the orchestrator knows of a factory's state.
#[derive(Debug, Clone, Copy, PartialEq, Eq, Structural)]
pub enum FactoryStatus {
    Running,
    Stopped,
    Dead,
    Uninitialized,
}

/// A registered factory: its name and its last known status.
#[derive(Debug, Clone, PartialEq, Eq)]
pub struct FactoryConnection {
    pub name: String,
    pub status: FactoryStatus,
}

impl FactoryConnection {
    /// The same factory with its status set to `status`.
    pub open spec fn with_status(self, status: FactoryStatus) -> FactoryConnection {
        FactoryConnection { name: self.name, status }
    }

    /// A copy of this connection that differs only in its status.
    pub fn get_copy_with_different_status(&self, new_status: FactoryStatus) -> (copy: Self)
        ensures
            copy == self.with_status(new_status),
    {
        FactoryConnection { name: self.name.clone(), status: new_status }
    }
}

/// `papaya::HashMap`, the concurrent hash table the factory table lives in,
/// known to Verus only through `table_entries` and the wrappers below.
#[verifier::external_type_specification]
#[verifier::external_body]
#[verifier::reject_recursive_types(K)]
#[verifier::reject_recursive_types(V)]
#[verifier::reject_recursive_types(S)]
pub struct ExPapayaHashMap<K, V, S>(papaya::HashMap<K, V, S>);

/// The entries of a factory table.
pub uninterp spec fn table_entries(table: papaya::HashMap<u128, FactoryConnection>) -> Map<
    u128,
    FactoryConnection,
>;

/// `papaya::HashMap::new`: a new table is empty.
#[verifier::external_body]
pub(crate) fn table_new() -> (fresh: papaya::HashMap<u128, FactoryConnection>)
    ensures
        table_entries(fresh) =~= Map::empty(),
{
    papaya::HashMap::new()
}

/// `papaya::HashMap::insert` (under a guard from `pin`): afterwards `id` maps
/// to `conn`, in place of any earlier entry, and the other entries stay.
#[verifier::external_body]
pub(crate) fn table_insert(
    table: &mut papaya::HashMap<u128, FactoryConnection>,
    id: u128,
    conn: FactoryConnection,
)
    ensures
        table_entries(*final(table)) == table_entries(*old(table)).insert(id, conn),
{
    table.pin().insert(id, conn);
}

/// `papaya::HashMap::get` (under a guard from `pin`), cloning the entry:
/// the entry of `id` if there is one.
#[verifier::external_body]
pub(crate) fn table_get(table: &papaya::HashMap<u128, FactoryConnection>, id: u128) -> (found:
    Option<FactoryConnection>)
    ensures
        found == (if table_entries(*table).dom().contains(id) {
            Some(table_entries(*table)[id])
        } else {
            None
        }),
{
    table.pin().get(&id).cloned()
}

/// `papaya::HashMap::update` (under a guard from `pin`) with
/// `get_copy_with_different_status`: when `id` has an entry, its status
/// becomes `status` and the call returns `true`; otherwise nothing changes and
/// it returns `false`.
#[verifier::external_body]
pub(crate) fn table_set_status(
    table: &mut papaya::HashMap<u128, FactoryConnection>,
    id: u128,
    status: FactoryStatus,
) -> (updated: bool)
    ensures
        updated == table_entries(*old(table)).dom().contains(id),
        table_entries(*final(table)) == (if updated {
            table_entries(*old(table)).insert(id, table_entries(*old(table))[id].with_status(status))
        } else {
            table_entries(*old(table))
        }),
{
    table.pin().update(id, |conn: &FactoryConnection| conn.get_copy_with_different_status(status)).is_some()
}

/// `papaya::HashMap::iter` (under a guard from `pin`, which first completes
/// any resize in progress), copying each entry: every entry of the table
/// exactly once, in the table's own order.
#[verifier::external_body]
pub(crate) fn table_snapshot(table: &papaya::HashMap<u128, FactoryConnection>) -> (entries: Vec<
    (u128, FactoryConnection),
>)
    ensures
        forall|i: int|
            0 <= i < entries@.len() ==> table_entries(*table).dom().contains(
                #[trigger] entries@[i].0,
            ) && table_entries(*table)[entries@[i].0] == entries@[i].1,
        forall|i: int, j: int|
            0 <= i < j < entries@.len() ==> #[trigger] entries@[i].0 != #[trigger] entries@[j].0,
        forall|k: u128|
            table_entries(*table).dom().contains(k) ==> exists|i: int|
                0 <= i < entries@.len() && #[trigger] entries@[i].0 == k,
{
    table.pin().iter().map(|(id, conn)| (*id, conn.clone())).collect()
}

} // verus!
