//! Lists of booking ids, kept as vectors of the host, so that a contract
//! can store and return them as they are.

use vstd::prelude::*;

verus! {

/// The host environment, `soroban_sdk::Env`. Nothing is known of it here:
/// it is only handed back to the host where a new list has to be made.
#[verifier::external_type_specification]
#[verifier::external_body]
pub struct ExEnv(soroban_sdk::Env);

/// The host's vector, `soroban_sdk::Vec`. What one holds is known through
/// `listed` alone.
#[verifier::external_type_specification]
#[verifier::external_body]
#[verifier::reject_recursive_types(T)]
pub struct ExVec<T>(soroban_sdk::Vec<T>);

/// The ids that a list holds, first to last.
pub uninterp spec fn listed(list: soroban_sdk::Vec<u64>) -> Seq<u64>;

/// Whether the host can make the list one longer: it keeps no vector of
/// more than `u32::MAX` items.
pub open spec fn has_room(ids: Seq<u64>) -> bool {
    ids.len() < u32::MAX
}

/// `soroban_sdk::Vec::new`: a list that holds nothing.
///
/// This is believed, not proved. The host charges the call, as it charges
/// every call, to the budget of the invocation and aborts the invocation
/// once that is spent; the contract speaks of the calls that return.
#[verifier::external_body]
pub(crate) fn new_list(env: &soroban_sdk::Env) -> (list: soroban_sdk::Vec<u64>)
    ensures
        listed(list) == Seq::<u64>::empty(),
{
    soroban_sdk::Vec::new(env)
}

/// `soroban_sdk::Vec::push_back`: the list is one longer, with `id` in the
/// last place and everything before it as it was.
///
/// This is believed, not proved. The host refuses to grow a vector of
/// `u32::MAX` items, which the precondition leaves out; of its budget the
/// same holds as for `new_list`.
#[verifier::external_body]
pub(crate) fn push_back(list: &mut soroban_sdk::Vec<u64>, id: u64)
    requires
        has_room(listed(*old(list))),
    ensures
        listed(*final(list)) == listed(*old(list)).push(id),
{
    list.push_back(id)
}

/// `soroban_sdk::Vec::len`: the number of ids in the list.
///
/// This is believed, not proved.
#[verifier::external_body]
pub(crate) fn list_len(list: &soroban_sdk::Vec<u64>) -> (len: u32)
    ensures
        len == listed(*list).len(),
{
    list.len()
}

/// `Clone::clone` of `soroban_sdk::Vec`: a second handle to the same
/// vector, which holds what the first holds.
///
/// This is believed, not proved.
#[verifier::external_body]
pub(crate) fn copy_list(list: &soroban_sdk::Vec<u64>) -> (copy: soroban_sdk::Vec<u64>)
    ensures
        listed(copy) == listed(*list),
{
    list.clone()
}

} // verus!
