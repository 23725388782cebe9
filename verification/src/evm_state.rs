//! The state changes of executed transactions, as the virtual machine hands them out.

use revm::primitives::Address as EvmAddress;
use revm::state::{Account as EvmAccount, EvmState};
use vstd::prelude::*;

verus! {

/// An address of the `revm` crate.
#[verifier::external_type_specification]
#[verifier::external_body]
pub struct ExEvmAddress(EvmAddress);

/// A changed account of the `revm` crate, carried through as it is.
#[verifier::external_type_specification]
#[verifier::external_body]
pub struct ExEvmAccount(EvmAccount);

/// The hash builder of the maps of `alloy_primitives`.
#[verifier::external_type_specification]
#[verifier::external_body]
pub struct ExDefaultHashBuilder(alloy_primitives::map::DefaultHashBuilder);

/// The changed accounts in `state`.
pub uninterp spec fn evm_state_contents(state: EvmState) -> Map<EvmAddress, EvmAccount>;

/// Whether `entries` lists every entry of `map` exactly once.
pub open spec fn lists<K, V>(entries: Seq<(K, V)>, map: Map<K, V>) -> bool {
    &&& forall|i: int, j: int|
        0 <= i < j < entries.len() ==> #[trigger] entries[i].0 != #[trigger] entries[j].0
    &&& forall|i: int| #![trigger entries[i]]
        0 <= i < entries.len() ==> map.dom().contains(entries[i].0) && map[entries[i].0]
            == entries[i].1
    &&& forall|k: K| #[trigger]
        map.dom().contains(k) ==> exists|i: int| 0 <= i < entries.len() && #[trigger] entries[i].0 == k
}

/// `EvmState::default`: a state without any changed account.
#[verifier::external_body]
pub(crate) fn new_evm_state() -> (r: EvmState)
    ensures
        evm_state_contents(r).dom() == Set::<EvmAddress>::empty(),
{
    EvmState::default()
}

/// `HashMap::insert` on an [`EvmState`], whose keys are the same exactly where their bytes are:
/// the account at `address` becomes `account`, whatever
/// was there before; no other account changes.
#[verifier::external_body]
fn insert_account(state: &mut EvmState, address: EvmAddress, account: EvmAccount)
    ensures
        evm_state_contents(*final(state)) == evm_state_contents(*old(state)).insert(address, account),
{
    state.insert(address, account);
}

/// `HashMap::into_iter` on an [`EvmState`]: every changed account once, in no particular
/// order.
#[verifier::external_body]
fn into_accounts(state: EvmState) -> (r: Vec<(EvmAddress, EvmAccount)>)
    ensures
        lists(r@, evm_state_contents(state)),
{
    state.into_iter().collect()
}

/// Merges new state changes into those accumulated from transactions before. The newer change
/// to an account replaces the older one; accounts without a newer change stay.
pub fn merge_state_changes(accumulated: &mut EvmState, new_changes: EvmState)
    ensures
        evm_state_contents(*final(accumulated)) == evm_state_contents(
            *old(accumulated),
        ).union_prefer_right(evm_state_contents(new_changes)),
{
    let ghost before = evm_state_contents(*accumulated);
    let ghost changes = evm_state_contents(new_changes);
    let mut entries = into_accounts(new_changes);
    let ghost all = entries@;
    while entries.len() > 0
        invariant
            lists(all, changes),
            entries.len() <= all.len(),
            entries@ == all.take(entries.len() as int),
            forall|k: EvmAddress| #[trigger]
                evm_state_contents(*accumulated).dom().contains(k) <==> before.dom().contains(k)
                    || exists|i: int| entries.len() <= i < all.len() && #[trigger] all[i].0 == k,
            forall|i: int| #![trigger all[i]]
                entries.len() <= i < all.len() ==> evm_state_contents(*accumulated)[all[i].0]
                    == all[i].1,
            forall|k: EvmAddress| #![trigger evm_state_contents(*accumulated)[k]]
                (forall|i: int| entries.len() <= i < all.len() ==> #[trigger] all[i].0 != k)
                    ==> evm_state_contents(*accumulated)[k] == before[k],
        decreases entries.len(),
    {
        let ghost n = entries.len() - 1;
        let ghost held = evm_state_contents(*accumulated);
        if let Some((address, account)) = entries.pop() {
            assert(all[n] == (address, account));
            insert_account(accumulated, address, account);
            assert forall|k: EvmAddress| #[trigger]
                evm_state_contents(*accumulated).dom().contains(k) <==> before.dom().contains(k)
                    || exists|i: int| n <= i < all.len() && #[trigger] all[i].0 == k by {
                if k == address {
                    assert(all[n].0 == k);
                } else {
                    assert(held.dom().contains(k) <==> evm_state_contents(
                        *accumulated,
                    ).dom().contains(k));
                }
            }
            assert forall|k: EvmAddress| #![trigger evm_state_contents(*accumulated)[k]]
                (forall|i: int| n <= i < all.len() ==> #[trigger] all[i].0 != k) implies evm_state_contents(
                *accumulated,
            )[k] == before[k] by {
                assert(all[n].0 != k);
                assert(held[k] == before[k]);
            }
        }
    }
    assert(evm_state_contents(*accumulated) =~= before.union_prefer_right(changes)) by {
        assert forall|k: EvmAddress| changes.dom().contains(k) implies #[trigger] evm_state_contents(
            *accumulated,
        )[k] == changes[k] by {
            let i = choose|i: int| 0 <= i < all.len() && #[trigger] all[i].0 == k;
            assert(all[i].0 == k);
        }
    }
}

/// Accumulating changes one transaction after the other gives the same as merging the later
/// ones first: only the order of the transactions counts.
pub proof fn law_merge_is_associative(
    first: Map<EvmAddress, EvmAccount>,
    second: Map<EvmAddress, EvmAccount>,
    third: Map<EvmAddress, EvmAccount>,
)
    ensures
        first.union_prefer_right(second).union_prefer_right(third) == first.union_prefer_right(
            second.union_prefer_right(third),
        ),
{
    assert(first.union_prefer_right(second).union_prefer_right(third) =~= first.union_prefer_right(
        second.union_prefer_right(third),
    ));
}

} // verus!
