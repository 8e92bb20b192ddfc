use vstd::prelude::*;

use crate::errors::VaultError;
use crate::instructions::{create_admin_vault, create_vault, initialise_program_info,
    CreateAdminVault, CreateVault, Initialize};
use crate::state::{AccountId, ProgramInfo, TokenAccount, Vault};

verus! {

/// The single authoritative store: the singleton record and every vault
/// record ever created, the administrative pool apart. There is no separate
/// index table: a vault's position in `vaults` is its index, and the count
/// in `program_info` is the sole source of truth for enumeration.
pub struct LedgerState {
    pub program_info: Option<ProgramInfo>,
    pub vaults: Vec<Vault>,
    pub admin_vault: Option<Vault>,
}

impl LedgerState {
    /// Well-formedness: before initialisation nothing exists; afterwards the
    /// count equals the number of vaults, every vault sits at the index it
    /// was created with, and every record reconciles.
    pub open spec fn wf(self) -> bool {
        &&& self.program_info is None ==> self.vaults@.len() == 0 && self.admin_vault is None
        &&& self.program_info matches Some(pi) ==> pi.vaults_count as int == self.vaults@.len()
        &&& forall|i: int|
            0 <= i < self.vaults@.len() ==> (#[trigger] self.vaults@[i]).vault_num as int == i
                && self.vaults@[i].wf()
        &&& self.admin_vault matches Some(v) ==> v.wf()
    }

    pub fn new() -> (r: LedgerState)
        ensures
            r.wf(),
            r.program_info is None,
            r.vaults@.len() == 0,
            r.admin_vault is None,
    {
        LedgerState { program_info: None, vaults: Vec::new(), admin_vault: None }
    }

    /// The one-time setup transition. Succeeds exactly once; a second
    /// invocation is rejected with `AlreadyInitialized` and leaves the whole
    /// ledger, the vault count included, untouched.
    pub fn initialise_program_info(&mut self, payer: AccountId, bump: u8) -> (r: Result<
        (),
        VaultError,
    >)
        requires
            old(self).wf(),
        ensures
            final(self).wf(),
            old(self).program_info is Some ==> r == Err::<(), VaultError>(
                VaultError::AlreadyInitialized,
            ) && *final(self) == *old(self),
            old(self).program_info is None ==> r is Ok && final(self).program_info == Some(
                ProgramInfo { admin: payer, bump, vaults_count: 0 },
            ) && final(self).vaults@ == old(self).vaults@ && final(self).admin_vault == old(
                self,
            ).admin_vault,
    {
        let mut ctx = Initialize { program_info: self.program_info, payer, bump };
        let r = initialise_program_info(&mut ctx);
        self.program_info = ctx.program_info;
        r
    }

    /// Allocates the next vault: index = current count, zero balance,
    /// creation time `now`; increments the count. Returns the new index.
    pub fn create_vault(
        &mut self,
        owner: AccountId,
        spl_token_account: TokenAccount,
        vault_bump: u8,
        now: i64,
    ) -> (r: u32)
        requires
            old(self).wf(),
            old(self).program_info is Some,
            old(self).program_info->Some_0.vaults_count < u32::MAX,
            0 <= now,
        ensures
            final(self).wf(),
            r == old(self).program_info->Some_0.vaults_count,
            final(self).program_info == Some(
                ProgramInfo {
                    vaults_count: (old(self).program_info->Some_0.vaults_count + 1) as u32,
                    ..old(self).program_info->Some_0
                },
            ),
            final(self).vaults@.len() == old(self).vaults@.len() + 1,
            forall|i: int|
                0 <= i < old(self).vaults@.len() ==> final(self).vaults@[i] == old(
                    self,
                ).vaults@[i],
            ({
                let v = final(self).vaults@.last();
                &&& v.owner == owner
                &&& v.vault_num == r
                &&& v.bump == vault_bump
                &&& v.spl_token_account == spl_token_account.address
                &&& v.spl_token_mint == spl_token_account.mint
                &&& v.creation_date == now
                &&& v.total_balance == 0
            }),
            final(self).admin_vault == old(self).admin_vault,
    {
        let pi = match self.program_info {
            Some(pi) => pi,
            None => unreached(),
        };
        let mut ctx = CreateVault { owner, program_info: pi, spl_token_account, vault_bump };
        let vault = create_vault(&mut ctx, now);
        let index = pi.vaults_count;
        self.program_info = Some(ctx.program_info);
        self.vaults.push(vault);
        index
    }

    /// Creates the administrative pool vault under its fixed namespace. The
    /// vault count is read but not incremented, and exactly one such vault
    /// may ever exist: re-invocation is rejected with `AlreadyInitialized`.
    pub fn create_admin_vault(
        &mut self,
        owner: AccountId,
        spl_token_account: TokenAccount,
        vault_bump: u8,
        now: i64,
    ) -> (r: Result<(), VaultError>)
        requires
            old(self).wf(),
            old(self).program_info is Some,
            0 <= now,
        ensures
            final(self).wf(),
            old(self).admin_vault is Some ==> r == Err::<(), VaultError>(
                VaultError::AlreadyInitialized,
            ) && *final(self) == *old(self),
            old(self).admin_vault is None ==> {
                &&& r is Ok
                &&& final(self).program_info == old(self).program_info
                &&& final(self).vaults@ == old(self).vaults@
                &&& final(self).admin_vault matches Some(v) && v.owner == owner && v.vault_num
                    == old(self).program_info->Some_0.vaults_count && v.bump == vault_bump
                    && v.spl_token_account == spl_token_account.address && v.spl_token_mint
                    == spl_token_account.mint && v.creation_date == now && v.total_balance == 0
            },
    {
        if self.admin_vault.is_some() {
            return Err(VaultError::AlreadyInitialized);
        }
        let pi = match self.program_info {
            Some(pi) => pi,
            None => unreached(),
        };
        let ctx = CreateAdminVault { owner, program_info: pi, spl_token_account, vault_bump };
        let vault = create_admin_vault(&ctx, now);
        self.admin_vault = Some(vault);
        Ok(())
    }

    /// The driver-facing read of the vault population size.
    pub fn get_vaults_count(&self) -> (r: u32)
        requires
            self.wf(),
            self.program_info is Some,
        ensures
            r == self.program_info->Some_0.vaults_count,
            r as int == self.vaults@.len(),
    {
        match &self.program_info {
            Some(pi) => pi.vaults_count,
            None => unreached(),
        }
    }

    /// The driver-facing read of one vault record by index.
    pub fn get_vault(&self, index: u32) -> (r: Option<Vault>)
        requires
            self.wf(),
        ensures
            index < self.vaults@.len() ==> r == Some(self.vaults@[index as int]),
            index >= self.vaults@.len() ==> r is None,
    {
        if (index as usize) < self.vaults.len() {
            Some(self.vaults[index as usize])
        } else {
            None
        }
    }
}

/// A defence against spoofed inputs: a vault record fetched for index
/// `expected_index` must carry that index, since the record's address is
/// recomputed from the index alone. A mismatch means the derivation does not
/// reach the record that was handed over.
pub fn verify_vault_record(expected_index: u32, vault: &Vault) -> (r: Result<(), VaultError>)
    ensures
        vault.vault_num == expected_index ==> r is Ok,
        vault.vault_num != expected_index ==> r == Err::<(), VaultError>(
            VaultError::AddressDerivationMismatch,
        ),
{
    if vault.vault_num != expected_index {
        return Err(VaultError::AddressDerivationMismatch);
    }
    Ok(())
}

/// Vault enumeration in call order: in any well-formed ledger the vaults
/// created by a sequence of creation transitions sit at indices `0..k-1` in
/// the order the calls were made, and the recorded count equals `k`.
pub proof fn lemma_vault_indices_in_call_order(l: LedgerState)
    requires
        l.wf(),
        l.program_info is Some,
    ensures
        l.program_info->Some_0.vaults_count as int == l.vaults@.len(),
        forall|i: int| 0 <= i < l.vaults@.len() ==> (#[trigger] l.vaults@[i]).vault_num as int == i,
{
}

} // verus!
