//! The vault ledger and its manager list.

use vstd::prelude::*;
use crate::constants::{MAX_FEE_BPS, MAX_MANAGERS};
use crate::error::VaultError;
use crate::pubkey::Pubkey;

verus! {

/// The ledger of one vault.
#[derive(Clone, Copy, Debug, PartialEq, Eq)]
pub struct VaultState {
    /// Vault owner: may change the configuration, pause, and name managers.
    pub owner: Pubkey,
    /// The underlying asset this vault accepts.
    pub mint: Pubkey,
    /// Total assets under management, as last reported.
    pub total_assets: u64,
    /// Total outstanding shares.
    pub total_shares: u64,
    /// Maximum valuation a deposit may lead to (0 = unlimited).
    pub deposit_cap: u64,
    /// Minimum amount of a single deposit.
    pub min_deposit: u64,
    /// Annual management fee in basis points.
    pub management_fee_bps: u16,
    /// Performance fee in basis points on gains above the high-water mark.
    pub performance_fee_bps: u16,
    /// Highest valuation on which a performance fee has been charged.
    pub high_water_mark: u64,
    /// Time of the last fee accrual (unix timestamp).
    pub last_fee_collection: i64,
    /// Fees accrued and not yet turned into shares, in asset units.
    pub accrued_management_fee: u64,
    /// Manager slots; the first `manager_count` are in office.
    pub managers: [Pubkey; MAX_MANAGERS],
    /// Number of managers in office.
    pub manager_count: u8,
    /// Whether deposits and withdrawals are disabled.
    pub paused: bool,
    /// Address-derivation bump of the ledger's own record.
    pub bump: u8,
    /// Address-derivation bump of the share issuer.
    pub share_mint_bump: u8,
    /// Address-derivation bump of the custody account.
    pub token_account_bump: u8,
}

/// Whether `after` is `before` with the key in `slot` removed by swapping:
/// the key in the `last` slot in office takes its place, the `last` slot is
/// reset to the default key, and every other slot stays.
pub open spec fn swap_removed(
    before: [Pubkey; MAX_MANAGERS],
    after: [Pubkey; MAX_MANAGERS],
    slot: int,
    last: int,
) -> bool {
    &&& after[last].is_default()
    &&& slot != last ==> after[slot] == before[last]
    &&& forall|i: int| 0 <= i < MAX_MANAGERS && i != slot && i != last ==> after[i] == before[i]
}

impl VaultState {
    /// Whether `key` sits in one of the slots in office.
    pub open spec fn has_manager(&self, key: Pubkey) -> bool {
        exists|i: int| 0 <= i < self.manager_count && i < MAX_MANAGERS && self.managers[i] == key
    }

    /// The managers in office, as a set.
    pub open spec fn manager_set(&self) -> Set<Pubkey> {
        Set::new(|key: Pubkey| self.has_manager(key))
    }

    /// Whether `key` may report valuations: the owner or a manager.
    pub open spec fn has_authority(&self, key: Pubkey) -> bool {
        self.owner == key || self.manager_set().contains(key)
    }

    /// The ledger's standing invariant: at most `MAX_MANAGERS` managers, no
    /// manager twice, and both fee rates within `MAX_FEE_BPS`.
    pub open spec fn wf(&self) -> bool {
        &&& self.manager_count <= MAX_MANAGERS
        &&& forall|i: int, j: int|
            0 <= i < j < self.manager_count ==> self.managers[i] != self.managers[j]
        &&& self.management_fee_bps <= MAX_FEE_BPS
        &&& self.performance_fee_bps <= MAX_FEE_BPS
    }

    /// Check the standing invariant at run time, for a ledger that comes from
    /// storage or from a caller that is not verified.
    pub fn is_well_formed(&self) -> (valid: bool)
        ensures
            valid == self.wf(),
    {
        if self.manager_count as usize > MAX_MANAGERS {
            return false;
        }
        if self.management_fee_bps > MAX_FEE_BPS || self.performance_fee_bps > MAX_FEE_BPS {
            return false;
        }
        let count: usize = self.manager_count as usize;
        let mut j: usize = 0;
        while j < count
            invariant
                j <= count,
                count == self.manager_count,
                count <= MAX_MANAGERS,
                forall|a: int, b: int| 0 <= a < b < j ==> self.managers[a] != self.managers[b],
            decreases count - j,
        {
            let mut i: usize = 0;
            while i < j
                invariant
                    i <= j,
                    j < count,
                    count == self.manager_count,
                    count <= MAX_MANAGERS,
                    forall|a: int| 0 <= a < i ==> self.managers[a] != self.managers[j as int],
                decreases j - i,
            {
                if self.managers[i] == self.managers[j] {
                    return false;
                }
                i += 1;
            }
            j += 1;
        }
        true
    }

    /// Check if a key is an authorized manager.
    pub fn is_manager(&self, key: &Pubkey) -> (found: bool)
        requires
            self.wf(),
        ensures
            found == self.manager_set().contains(*key),
    {
        let count: usize = self.manager_count as usize;
        let mut i: usize = 0;
        while i < count
            invariant
                i <= count,
                count == self.manager_count,
                count <= MAX_MANAGERS,
                forall|j: int| 0 <= j < i ==> self.managers[j] != *key,
            decreases count - i,
        {
            if self.managers[i] == *key {
                return true;
            }
            i += 1;
        }
        false
    }

    /// Check if a key is the owner or an authorized manager.
    pub fn is_authority(&self, key: &Pubkey) -> (allowed: bool)
        requires
            self.wf(),
        ensures
            allowed == self.has_authority(*key),
    {
        self.owner == *key || self.is_manager(key)
    }

    /// Add a new manager to the vault.
    ///
    /// Refused with `MaxManagersReached` when every slot is taken, and with
    /// `ManagerAlreadyExists` when the key is in office already. Otherwise
    /// the key takes the first vacant slot.
    pub fn add_manager(&mut self, key: Pubkey) -> (result: Result<(), VaultError>)
        requires
            old(self).wf(),
        ensures
            final(self).wf(),
            old(self).manager_count == MAX_MANAGERS ==> result == Err::<(), VaultError>(
                VaultError::MaxManagersReached,
            ),
            old(self).manager_count < MAX_MANAGERS && old(self).manager_set().contains(key)
                ==> result == Err::<(), VaultError>(VaultError::ManagerAlreadyExists),
            old(self).manager_count < MAX_MANAGERS && !old(self).manager_set().contains(key)
                ==> result == Ok::<(), VaultError>(()),
            result is Err ==> *final(self) == *old(self),
            result is Ok ==> *final(self) == (VaultState {
                managers: final(self).managers,
                manager_count: (old(self).manager_count + 1) as u8,
                ..*old(self)
            }),
            result is Ok ==> final(self).managers@ == old(self).managers@.update(
                old(self).manager_count as int,
                key,
            ),
            result is Ok ==> final(self).manager_set() == old(self).manager_set().insert(key),
    {
        if self.manager_count as usize >= MAX_MANAGERS {
            return Err(VaultError::MaxManagersReached);
        }
        if self.is_manager(&key) {
            return Err(VaultError::ManagerAlreadyExists);
        }
        self.managers[self.manager_count as usize] = key;
        self.manager_count += 1;
        proof {
            let before = *old(self);
            let after = *self;
            let slot = before.manager_count as int;
            assert(after.managers[slot] == key);
            assert forall|k: Pubkey| after.has_manager(k) <==> (k == key || before.has_manager(
                k,
            )) by {
                if before.has_manager(k) {
                    let i = choose|i: int|
                        0 <= i < before.manager_count && i < MAX_MANAGERS && before.managers[i]
                            == k;
                    assert(after.managers[i] == k);
                }
            }
            assert(after.manager_set() =~= before.manager_set().insert(key));
        }
        Ok(())
    }

    /// Remove a manager from the vault.
    ///
    /// Refused with `ManagerNotFound` when the key is not in office.
    /// Otherwise the last manager in office moves into the key's slot and the
    /// last slot is reset to the default key: the order of those who stay may
    /// change, the set of them does not.
    pub fn remove_manager(&mut self, key: Pubkey) -> (result: Result<(), VaultError>)
        requires
            old(self).wf(),
        ensures
            final(self).wf(),
            !old(self).manager_set().contains(key) ==> result == Err::<(), VaultError>(
                VaultError::ManagerNotFound,
            ),
            old(self).manager_set().contains(key) ==> result == Ok::<(), VaultError>(()),
            result is Err ==> *final(self) == *old(self),
            result is Ok ==> *final(self) == (VaultState {
                managers: final(self).managers,
                manager_count: (old(self).manager_count - 1) as u8,
                ..*old(self)
            }),
            result is Ok ==> forall|slot: int|
                0 <= slot < old(self).manager_count && #[trigger] old(self).managers[slot] == key
                    ==> swap_removed(
                    old(self).managers,
                    final(self).managers,
                    slot,
                    old(self).manager_count - 1,
                ),
            result is Ok ==> final(self).manager_set() == old(self).manager_set().remove(key),
    {
        let count: usize = self.manager_count as usize;
        let mut i: usize = 0;
        while i < count
            invariant
                i <= count,
                count == self.manager_count,
                count <= MAX_MANAGERS,
                *self == *old(self),
                self.wf(),
                forall|j: int| 0 <= j < i ==> self.managers[j] != key,
            decreases count - i,
        {
            if self.managers[i] == key {
                let last_idx: usize = count - 1;
                self.managers[i] = self.managers[last_idx];
                self.managers[last_idx] = Pubkey::default();
                self.manager_count -= 1;
                proof {
                    let before = *old(self);
                    let after = *self;
                    let slot = i as int;
                    let last = last_idx as int;
                    assert(before.managers[slot] == key);
                    assert(before.has_manager(key));
                    assert forall|k: Pubkey| after.has_manager(k) <==> (k != key
                        && before.has_manager(k)) by {
                        if after.has_manager(k) {
                            let a = choose|a: int|
                                0 <= a < after.manager_count && a < MAX_MANAGERS
                                    && after.managers[a] == k;
                            if a == slot {
                                assert(before.managers[last] == k);
                            } else {
                                assert(before.managers[a] == k);
                            }
                        }
                        if k != key && before.has_manager(k) {
                            let b = choose|b: int|
                                0 <= b < before.manager_count && b < MAX_MANAGERS
                                    && before.managers[b] == k;
                            if b == last {
                                assert(after.managers[slot] == k);
                            } else {
                                assert(after.managers[b] == k);
                            }
                        }
                    }
                    assert(after.manager_set() =~= before.manager_set().remove(key));
                }
                return Ok(());
            }
            i += 1;
        }
        Err(VaultError::ManagerNotFound)
    }
}

} // verus!
