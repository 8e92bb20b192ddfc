use vstd::prelude::*;

use crate::errors::VaultError;
use crate::interest::{interest_amount, interest_eligible, spec_interest_amount,
    spec_interest_eligible};
use crate::state::{lemma_net_balance_push, AccountId, BalanceEvent, MintAccount, ProgramInfo,
    TokenAccount, Vault};

verus! {

/// The accounts touched by the one-time program initialisation.
pub struct Initialize {
    /// The singleton record, absent until the first initialisation creates it.
    pub program_info: Option<ProgramInfo>,
    pub payer: AccountId,
    /// The derivation proof bound to the record's address.
    pub bump: u8,
}

/// Creates the singleton `ProgramInfo` with a zero vault count and the payer
/// as admin. Re-invocation is rejected and leaves the record untouched.
pub fn initialise_program_info(ctx: &mut Initialize) -> (r: Result<(), VaultError>)
    ensures
        old(ctx).program_info is Some ==> r == Err::<(), VaultError>(
            VaultError::AlreadyInitialized,
        ) && *final(ctx) == *old(ctx),
        old(ctx).program_info is None ==> r is Ok && *final(ctx) == (Initialize {
            program_info: Some(ProgramInfo {
                admin: old(ctx).payer,
                bump: old(ctx).bump,
                vaults_count: 0,
            }),
            ..*old(ctx)
        }),
{
    if ctx.program_info.is_some() {
        return Err(VaultError::AlreadyInitialized);
    }
    ctx.program_info = Some(ProgramInfo::new(ctx.bump, ctx.payer, 0));
    Ok(())
}

/// The accounts touched when a regular vault is created.
pub struct CreateVault {
    pub owner: AccountId,
    pub program_info: ProgramInfo,
    /// The external asset account that will back the new vault.
    pub spl_token_account: TokenAccount,
    /// The derivation proof of the new vault's address.
    pub vault_bump: u8,
}

/// Allocates a vault at the current count's index, with a zero balance and
/// the given creation time, and increments the count. The new index doubles
/// as the input of the vault's address derivation, so the count is the sole
/// source of truth for enumeration.
pub fn create_vault(ctx: &mut CreateVault, now: i64) -> (v: Vault)
    requires
        old(ctx).program_info.vaults_count < u32::MAX,
        0 <= now,
    ensures
        v.wf(),
        v.bump == old(ctx).vault_bump,
        v.owner == old(ctx).owner,
        v.vault_num == old(ctx).program_info.vaults_count,
        v.spl_token_account == old(ctx).spl_token_account.address,
        v.spl_token_mint == old(ctx).spl_token_account.mint,
        v.creation_date == now,
        v.total_balance == 0,
        v.history@ == Seq::<BalanceEvent>::empty(),
        *final(ctx) == (CreateVault {
            program_info: (ProgramInfo {
                vaults_count: (old(ctx).program_info.vaults_count + 1) as u32,
                ..old(ctx).program_info
            }),
            ..*old(ctx)
        }),
{
    let vault = Vault::new(
        ctx.vault_bump,
        ctx.owner,
        ctx.program_info.vaults_count,
        ctx.spl_token_account.address,
        ctx.spl_token_account.mint,
        now,
    );
    ctx.program_info.increment_vaults_count();
    vault
}

/// The accounts touched when the single administrative vault is created.
pub struct CreateAdminVault {
    pub owner: AccountId,
    pub program_info: ProgramInfo,
    pub spl_token_account: TokenAccount,
    pub vault_bump: u8,
}

/// Creates the administrative pool vault. Its address comes from the fixed
/// admin namespace rather than an index, so the vault count is read but not
/// incremented.
pub fn create_admin_vault(ctx: &CreateAdminVault, now: i64) -> (v: Vault)
    requires
        0 <= now,
    ensures
        v.wf(),
        v.bump == ctx.vault_bump,
        v.owner == ctx.owner,
        v.vault_num == ctx.program_info.vaults_count,
        v.spl_token_account == ctx.spl_token_account.address,
        v.spl_token_mint == ctx.spl_token_account.mint,
        v.creation_date == now,
        v.total_balance == 0,
        v.history@ == Seq::<BalanceEvent>::empty(),
{
    Vault::new(
        ctx.vault_bump,
        ctx.owner,
        ctx.program_info.vaults_count,
        ctx.spl_token_account.address,
        ctx.spl_token_account.mint,
        now,
    )
}

/// The accounts touched by a deposit into a vault.
pub struct DepositSPLTokens {
    pub user_vault: Vault,
    /// The depositor's own asset account, the source of the transfer.
    pub user_spl_token_account: TokenAccount,
    /// The vault's backing asset account, the destination of the transfer.
    pub destination_vault_spl_token_account: TokenAccount,
    pub fee_payer: AccountId,
}

impl DepositSPLTokens {
    /// Account resolution: the destination really is the vault's registered
    /// backing account, holding the vault's asset type.
    pub open spec fn wf(self) -> bool {
        &&& self.user_vault.wf()
        &&& self.destination_vault_spl_token_account.address == self.user_vault.spl_token_account
        &&& self.destination_vault_spl_token_account.mint == self.user_vault.spl_token_mint
    }
}

/// Moves `amount` from the depositor's account into the vault's backing
/// account, then raises the vault's mirrored balance by the same amount; the
/// transfer and the mirror update are one logical unit, so a failed transfer
/// leaves every record untouched.
pub fn deposit_spl_tokens(ctx: &mut DepositSPLTokens, amount: u64) -> (r: Result<(), VaultError>)
    requires
        old(ctx).wf(),
        old(ctx).user_vault.total_balance + amount <= u64::MAX,
        old(ctx).destination_vault_spl_token_account.amount + amount <= u64::MAX,
    ensures
        final(ctx).wf(),
        old(ctx).user_spl_token_account.mint != old(ctx).user_vault.spl_token_mint ==> r == Err::<
            (),
            VaultError,
        >(VaultError::InvalidSPLTokenType) && *final(ctx) == *old(ctx),
        old(ctx).user_spl_token_account.mint == old(ctx).user_vault.spl_token_mint && old(
            ctx,
        ).user_spl_token_account.amount < amount ==> r == Err::<(), VaultError>(
            VaultError::InsufficientBalance,
        ) && *final(ctx) == *old(ctx),
        old(ctx).user_spl_token_account.mint == old(ctx).user_vault.spl_token_mint && old(
            ctx,
        ).user_spl_token_account.amount >= amount ==> {
            &&& r is Ok
            &&& final(ctx).user_spl_token_account == (TokenAccount {
                amount: (old(ctx).user_spl_token_account.amount - amount) as u64,
                ..old(ctx).user_spl_token_account
            })
            &&& final(ctx).destination_vault_spl_token_account == (TokenAccount {
                amount: (old(ctx).destination_vault_spl_token_account.amount + amount) as u64,
                ..old(ctx).destination_vault_spl_token_account
            })
            &&& final(ctx).user_vault == (Vault {
                total_balance: (old(ctx).user_vault.total_balance + amount) as u64,
                history: Ghost(
                    old(ctx).user_vault.history@.push(BalanceEvent::Deposit(amount)),
                ),
                ..old(ctx).user_vault
            })
            &&& final(ctx).fee_payer == old(ctx).fee_payer
        },
{
    if !ctx.user_vault.verify_spl_token_type(ctx.user_spl_token_account.mint) {
        return Err(VaultError::InvalidSPLTokenType);
    }
    if ctx.user_spl_token_account.amount < amount {
        return Err(VaultError::InsufficientBalance);
    }
    ctx.user_spl_token_account.amount = ctx.user_spl_token_account.amount - amount;
    ctx.destination_vault_spl_token_account.amount = ctx.destination_vault_spl_token_account.amount
        + amount;
    ctx.user_vault.update_balance_after_deposit(amount);
    proof {
        lemma_net_balance_push(ctx.user_vault.history@, BalanceEvent::Deposit(amount));
    }
    ctx.user_vault.history = Ghost(ctx.user_vault.history@.push(BalanceEvent::Deposit(amount)));
    Ok(())
}

/// The accounts touched by a withdrawal from a vault.
pub struct WithdrawSPLTokens {
    pub vault: Vault,
    /// The vault's backing asset account, the source of the transfer.
    pub vault_spl_token_account: TokenAccount,
    /// The owner's own asset account, the destination of the transfer.
    pub user_spl_token_account: TokenAccount,
    pub payer: AccountId,
    /// The identity that signed the withdrawal request.
    pub owner: AccountId,
}

impl WithdrawSPLTokens {
    /// Account resolution: the source really is the vault's registered
    /// backing account, holding the vault's asset type.
    pub open spec fn wf(self) -> bool {
        &&& self.vault.wf()
        &&& self.vault_spl_token_account.address == self.vault.spl_token_account
        &&& self.vault_spl_token_account.mint == self.vault.spl_token_mint
    }
}

/// Moves `amount` from the vault's backing account to the owner's account,
/// then lowers the vault's mirrored balance by the same amount. Only the
/// recorded owner may withdraw, and the amount must be covered both by the
/// mirror and by the backing account's actual balance.
pub fn withdraw_spl_tokens(ctx: &mut WithdrawSPLTokens, amount: u64) -> (r: Result<
    (),
    VaultError,
>)
    requires
        old(ctx).wf(),
        old(ctx).user_spl_token_account.amount + amount <= u64::MAX,
    ensures
        final(ctx).wf(),
        old(ctx).owner != old(ctx).vault.owner ==> r == Err::<(), VaultError>(
            VaultError::InvalidVaultOwner,
        ) && *final(ctx) == *old(ctx),
        old(ctx).owner == old(ctx).vault.owner && old(ctx).user_spl_token_account.mint != old(
            ctx,
        ).vault.spl_token_mint ==> r == Err::<(), VaultError>(VaultError::InvalidSPLTokenType)
            && *final(ctx) == *old(ctx),
        old(ctx).owner == old(ctx).vault.owner && old(ctx).user_spl_token_account.mint == old(
            ctx,
        ).vault.spl_token_mint && (old(ctx).vault.total_balance < amount || old(
            ctx,
        ).vault_spl_token_account.amount < amount) ==> r == Err::<(), VaultError>(
            VaultError::InsufficientBalance,
        ) && *final(ctx) == *old(ctx),
        old(ctx).owner == old(ctx).vault.owner && old(ctx).user_spl_token_account.mint == old(
            ctx,
        ).vault.spl_token_mint && old(ctx).vault.total_balance >= amount && old(
            ctx,
        ).vault_spl_token_account.amount >= amount ==> {
            &&& r is Ok
            &&& final(ctx).vault_spl_token_account == (TokenAccount {
                amount: (old(ctx).vault_spl_token_account.amount - amount) as u64,
                ..old(ctx).vault_spl_token_account
            })
            &&& final(ctx).user_spl_token_account == (TokenAccount {
                amount: (old(ctx).user_spl_token_account.amount + amount) as u64,
                ..old(ctx).user_spl_token_account
            })
            &&& final(ctx).vault == (Vault {
                total_balance: (old(ctx).vault.total_balance - amount) as u64,
                history: Ghost(old(ctx).vault.history@.push(BalanceEvent::Withdrawal(amount))),
                ..old(ctx).vault
            })
            &&& final(ctx).payer == old(ctx).payer
            &&& final(ctx).owner == old(ctx).owner
        },
{
    if ctx.owner != ctx.vault.owner {
        return Err(VaultError::InvalidVaultOwner);
    }
    if !ctx.vault.verify_spl_token_type(ctx.user_spl_token_account.mint) {
        return Err(VaultError::InvalidSPLTokenType);
    }
    if !ctx.vault.has_sufficient_balance(amount) || ctx.vault_spl_token_account.amount < amount {
        return Err(VaultError::InsufficientBalance);
    }
    ctx.vault_spl_token_account.amount = ctx.vault_spl_token_account.amount - amount;
    ctx.user_spl_token_account.amount = ctx.user_spl_token_account.amount + amount;
    ctx.vault.update_balance_after_withdrawal(amount);
    proof {
        lemma_net_balance_push(ctx.vault.history@, BalanceEvent::Withdrawal(amount));
    }
    ctx.vault.history = Ghost(ctx.vault.history@.push(BalanceEvent::Withdrawal(amount)));
    Ok(())
}

/// The accounts touched by one interest distribution.
pub struct DistributeInterest {
    pub admin_vault: Vault,
    pub destination_vault: Vault,
    /// The administrative pool's backing account, the interest source.
    pub admin_vault_spl_token_account: TokenAccount,
    /// The destination vault's backing account, the interest destination.
    pub destination_vault_spl_token_account: TokenAccount,
    pub program_info: ProgramInfo,
}

impl DistributeInterest {
    /// Account resolution: each backing account really belongs to its vault,
    /// and both sides hold the same asset type.
    pub open spec fn wf(self) -> bool {
        &&& self.admin_vault.wf()
        &&& self.destination_vault.wf()
        &&& self.admin_vault_spl_token_account.address == self.admin_vault.spl_token_account
        &&& self.destination_vault_spl_token_account.address
            == self.destination_vault.spl_token_account
        &&& self.admin_vault_spl_token_account.mint == self.admin_vault.spl_token_mint
        &&& self.destination_vault_spl_token_account.mint == self.admin_vault_spl_token_account.mint
    }
}

/// Transfers one percent (floor) of the destination vault's external balance
/// from the administrative pool to the destination vault, once the
/// destination vault is at least one month old. The destination's mirror
/// rises by the interest; the pool's mirror falls by the same amount, clamped
/// at zero should the mirror lag the pool's external balance.
pub fn distribute_interest(ctx: &mut DistributeInterest, now: i64) -> (r: Result<(), VaultError>)
    requires
        old(ctx).wf(),
        0 <= now,
        old(ctx).destination_vault.total_balance + spec_interest_amount(
            old(ctx).destination_vault_spl_token_account.amount,
        ) <= u64::MAX,
        old(ctx).destination_vault_spl_token_account.amount + spec_interest_amount(
            old(ctx).destination_vault_spl_token_account.amount,
        ) <= u64::MAX,
    ensures
        final(ctx).wf(),
        old(ctx).admin_vault.owner != old(ctx).program_info.admin ==> r == Err::<(), VaultError>(
            VaultError::InvalidVaultOwner,
        ) && *final(ctx) == *old(ctx),
        ({
            let interest = spec_interest_amount(
                old(ctx).destination_vault_spl_token_account.amount,
            );
            &&& (old(ctx).admin_vault.owner == old(ctx).program_info.admin && old(
                ctx,
            ).admin_vault_spl_token_account.amount < interest ==> r == Err::<(), VaultError>(
                VaultError::InsufficientBalance,
            ) && *final(ctx) == *old(ctx))
            &&& (old(ctx).admin_vault.owner == old(ctx).program_info.admin && old(
                ctx,
            ).admin_vault_spl_token_account.amount >= interest && !spec_interest_eligible(
                old(ctx).destination_vault.creation_date,
                now,
            ) ==> r == Err::<(), VaultError>(VaultError::InterestNotAccruedYet) && *final(ctx)
                == *old(ctx))
            &&& (old(ctx).admin_vault.owner == old(ctx).program_info.admin && old(
                ctx,
            ).admin_vault_spl_token_account.amount >= interest && spec_interest_eligible(
                old(ctx).destination_vault.creation_date,
                now,
            ) ==> {
                let paid = if old(ctx).admin_vault.total_balance >= interest {
                    interest
                } else {
                    old(ctx).admin_vault.total_balance
                };
                &&& r is Ok
                &&& final(ctx).admin_vault_spl_token_account == (TokenAccount {
                    amount: (old(ctx).admin_vault_spl_token_account.amount - interest) as u64,
                    ..old(ctx).admin_vault_spl_token_account
                })
                &&& final(ctx).destination_vault_spl_token_account == (TokenAccount {
                    amount: (old(ctx).destination_vault_spl_token_account.amount + interest)
                        as u64,
                    ..old(ctx).destination_vault_spl_token_account
                })
                &&& final(ctx).destination_vault == (Vault {
                    total_balance: (old(ctx).destination_vault.total_balance + interest) as u64,
                    history: Ghost(
                        old(ctx).destination_vault.history@.push(
                            BalanceEvent::InterestReceived(interest),
                        ),
                    ),
                    ..old(ctx).destination_vault
                })
                &&& final(ctx).admin_vault == (Vault {
                    total_balance: (old(ctx).admin_vault.total_balance - paid) as u64,
                    history: Ghost(
                        old(ctx).admin_vault.history@.push(BalanceEvent::InterestPaidOut(paid)),
                    ),
                    ..old(ctx).admin_vault
                })
                &&& final(ctx).program_info == old(ctx).program_info
            })
        }),
{
    if ctx.admin_vault.owner != ctx.program_info.admin {
        return Err(VaultError::InvalidVaultOwner);
    }
    let interest = interest_amount(ctx.destination_vault_spl_token_account.amount);
    if ctx.admin_vault_spl_token_account.amount < interest {
        return Err(VaultError::InsufficientBalance);
    }
    if !interest_eligible(ctx.destination_vault.creation_date, now) {
        return Err(VaultError::InterestNotAccruedYet);
    }
    ctx.admin_vault_spl_token_account.amount = ctx.admin_vault_spl_token_account.amount - interest;
    ctx.destination_vault_spl_token_account.amount = ctx.destination_vault_spl_token_account.amount
        + interest;
    ctx.destination_vault.update_balance_after_deposit(interest);
    proof {
        lemma_net_balance_push(
            ctx.destination_vault.history@,
            BalanceEvent::InterestReceived(interest),
        );
    }
    ctx.destination_vault.history = Ghost(
        ctx.destination_vault.history@.push(BalanceEvent::InterestReceived(interest)),
    );
    let ghost paid: u64 = if ctx.admin_vault.total_balance >= interest {
        interest
    } else {
        ctx.admin_vault.total_balance
    };
    ctx.admin_vault.update_balance_after_withdrawal(interest);
    proof {
        lemma_net_balance_push(ctx.admin_vault.history@, BalanceEvent::InterestPaidOut(paid));
    }
    ctx.admin_vault.history = Ghost(
        ctx.admin_vault.history@.push(BalanceEvent::InterestPaidOut(paid)),
    );
    Ok(())
}

/// The accounts touched when new units are minted into a vault's backing
/// account.
pub struct MintTokensTo {
    pub mint: MintAccount,
    /// The destination vault's backing account, credited with the new units.
    pub destination_vault_spl_token_account: TokenAccount,
    pub admin_vault: Vault,
    /// The administrative vault's derived address, which acts as the mint
    /// authority through its derivation proof.
    pub admin_vault_address: AccountId,
    pub fee_payer: AccountId,
}

impl MintTokensTo {
    /// Account resolution: the credited account holds the minted asset type.
    pub open spec fn wf(self) -> bool {
        &&& self.admin_vault.wf()
        &&& self.destination_vault_spl_token_account.mint == self.mint.address
    }
}

/// Creates `amount` new units of the asset directly in the destination
/// account, authorised by the administrative vault's derivation proof. This
/// is a pool-wide supply operation, not a transfer between tracked vaults:
/// deliberately, no vault's mirrored balance moves, in particular not the
/// administrative vault's.
pub fn mint_tokens_to(ctx: &mut MintTokensTo, amount: u64) -> (r: Result<(), VaultError>)
    requires
        old(ctx).wf(),
        old(ctx).mint.supply + amount <= u64::MAX,
        old(ctx).destination_vault_spl_token_account.amount + amount <= u64::MAX,
    ensures
        final(ctx).wf(),
        final(ctx).admin_vault == old(ctx).admin_vault,
        old(ctx).mint.mint_authority != old(ctx).admin_vault_address ==> r == Err::<
            (),
            VaultError,
        >(VaultError::InvalidVaultOwner) && *final(ctx) == *old(ctx),
        old(ctx).mint.mint_authority == old(ctx).admin_vault_address ==> {
            &&& r is Ok
            &&& final(ctx).mint == (MintAccount {
                supply: (old(ctx).mint.supply + amount) as u64,
                ..old(ctx).mint
            })
            &&& final(ctx).destination_vault_spl_token_account == (TokenAccount {
                amount: (old(ctx).destination_vault_spl_token_account.amount + amount) as u64,
                ..old(ctx).destination_vault_spl_token_account
            })
            &&& final(ctx).admin_vault_address == old(ctx).admin_vault_address
            &&& final(ctx).fee_payer == old(ctx).fee_payer
        },
{
    if ctx.mint.mint_authority != ctx.admin_vault_address {
        return Err(VaultError::InvalidVaultOwner);
    }
    ctx.mint.supply = ctx.mint.supply + amount;
    ctx.destination_vault_spl_token_account.amount = ctx.destination_vault_spl_token_account.amount
        + amount;
    Ok(())
}

} // verus!
