use vstd::prelude::*;

use crate::error::DojoError;
use crate::field_element::{felt_hex_accepted, field_elements_to_felts, parses_to, FieldElement};
use crate::registry::{RegistryView, SubscriptionRegistry};
use crate::token_id::{decodes_to, token_id_accepted, token_ids_to_u256s, U256};

verus! {

/// Every string of `fes` is a well-formed field element.
pub open spec fn all_felts_accepted(fes: Seq<FieldElement>) -> bool {
    forall|i: int| 0 <= i < fes.len() ==> felt_hex_accepted(#[trigger] fes[i]@)
}

/// Every string of `ids` is a well-formed token id.
pub open spec fn all_token_ids_accepted(ids: Seq<U256>) -> bool {
    forall|i: int| 0 <= i < ids.len() ==> token_id_accepted(#[trigger] ids[i]@)
}

/// The first step of an entity subscription: the subscription's id is taken
/// from the registry (it stays taken even when the subscription fails), then
/// the world addresses are parsed.
pub fn begin_entity_updates(
    registry: &mut SubscriptionRegistry,
    world_addresses: &Vec<FieldElement>,
) -> (r: Result<(u64, Vec<starknet::core::types::Felt>), DojoError>)
    ensures
        final(registry)@ == old(registry)@.allocate().0,
        r is Ok <==> all_felts_accepted(world_addresses@),
        r is Ok ==> r->Ok_0.0 == old(registry)@.next_id && parses_to(world_addresses@, r->Ok_0.1@),
        r is Err ==> r->Err_0 == DojoError::InvalidInput,
{
    let id = registry.allocate_id();
    let addresses = field_elements_to_felts(world_addresses)?;
    Ok((id, addresses))
}

/// The first step of a token balance subscription: the id is taken, then the
/// contract addresses, the account addresses and the token ids are parsed.
pub fn begin_token_balance_updates(
    registry: &mut SubscriptionRegistry,
    contract_addresses: &Vec<FieldElement>,
    account_addresses: &Vec<FieldElement>,
    token_ids: &Vec<U256>,
) -> (r: Result<
    (u64, Vec<starknet::core::types::Felt>, Vec<starknet::core::types::Felt>, Vec<crypto_bigint::U256>),
    DojoError,
>)
    ensures
        final(registry)@ == old(registry)@.allocate().0,
        r is Ok <==> (all_felts_accepted(contract_addresses@) && all_felts_accepted(account_addresses@)
            && all_token_ids_accepted(token_ids@)),
        r is Ok ==> r->Ok_0.0 == old(registry)@.next_id && parses_to(contract_addresses@, r->Ok_0.1@)
            && parses_to(account_addresses@, r->Ok_0.2@) && decodes_to(token_ids@, r->Ok_0.3@),
        r is Err ==> r->Err_0 == DojoError::InvalidInput,
{
    let id = registry.allocate_id();
    let contracts = field_elements_to_felts(contract_addresses)?;
    let accounts = field_elements_to_felts(account_addresses)?;
    let ids = token_ids_to_u256s(token_ids)?;
    Ok((id, contracts, accounts, ids))
}

/// The first step of a token subscription: the id is taken, then the
/// contract addresses and the token ids are parsed.
pub fn begin_token_updates(
    registry: &mut SubscriptionRegistry,
    contract_addresses: &Vec<FieldElement>,
    token_ids: &Vec<U256>,
) -> (r: Result<(u64, Vec<starknet::core::types::Felt>, Vec<crypto_bigint::U256>), DojoError>)
    ensures
        final(registry)@ == old(registry)@.allocate().0,
        r is Ok <==> (all_felts_accepted(contract_addresses@) && all_token_ids_accepted(token_ids@)),
        r is Ok ==> r->Ok_0.0 == old(registry)@.next_id && parses_to(contract_addresses@, r->Ok_0.1@)
            && decodes_to(token_ids@, r->Ok_0.2@),
        r is Err ==> r->Err_0 == DojoError::InvalidInput,
{
    let id = registry.allocate_id();
    let contracts = field_elements_to_felts(contract_addresses)?;
    let ids = token_ids_to_u256s(token_ids)?;
    Ok((id, contracts, ids))
}

/// The last step of every subscription: once its update stream is being
/// forwarded by `handle`, the subscription is recorded under `id`, which is
/// returned to the caller.
pub fn complete_subscription(
    registry: &mut SubscriptionRegistry,
    id: u64,
    handle: tokio::task::JoinHandle<()>,
) -> (r: u64)
    ensures
        final(registry)@ == old(registry)@.register(id, handle),
        r == id,
{
    registry.register(id, handle);
    id
}

/// A subscription that has been recorded can be cancelled until it is, and
/// recording it changes no other subscription.
pub proof fn law_completed_subscription_is_active(m: RegistryView, id: u64, handle: tokio::task::JoinHandle<()>, other: u64)
    ensures
        m.register(id, handle).active.contains_key(id),
        m.register(id, handle).active[id] == handle,
        m.register(id, handle).next_id == m.next_id,
        m.register(id, handle).aborted == m.aborted,
        m.register(id, handle).cancel(id).1 is Ok,
        other != id ==> (m.register(id, handle).active.contains_key(other) == m.active.contains_key(other)),
{
}

/// The filters of a subscription are accepted exactly when each of their
/// strings is.
pub proof fn law_filters_accepted(fes: Seq<FieldElement>, ids: Seq<U256>)
    ensures
        all_felts_accepted(fes) <==> (forall|i: int| 0 <= i < fes.len() ==> felt_hex_accepted(#[trigger] fes[i]@)),
        all_token_ids_accepted(ids) <==> (forall|i: int| 0 <= i < ids.len() ==> token_id_accepted(#[trigger] ids[i]@)),
{
}

} // verus!
