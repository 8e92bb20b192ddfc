use vstd::prelude::*;

verus! {

/// The identity of an addressable account: a 256-bit key held as four
/// little-endian 64-bit words.
#[derive(Clone, Copy, Debug, PartialEq, Eq, Structural)]
pub struct AccountId {
    pub w0: u64,
    pub w1: u64,
    pub w2: u64,
    pub w3: u64,
}

/// The model of an externally held asset account backing a vault: its own
/// address, the asset denomination it holds, and its balance.
#[derive(Clone, Copy, Debug, PartialEq, Eq, Structural)]
pub struct TokenAccount {
    pub address: AccountId,
    pub mint: AccountId,
    pub amount: u64,
}

/// The model of an asset denomination record: its address, the single
/// authority entitled to create new units, and the circulating supply.
#[derive(Clone, Copy, Debug, PartialEq, Eq, Structural)]
pub struct MintAccount {
    pub address: AccountId,
    pub mint_authority: AccountId,
    pub supply: u64,
}

/// The singleton configuration-and-counter record of the ledger.
#[derive(Clone, Copy, Debug, PartialEq, Eq, Structural)]
pub struct ProgramInfo {
    pub admin: AccountId,
    pub bump: u8,
    pub vaults_count: u32,
}

impl ProgramInfo {
    pub const MAXIMUM_SPACE: usize = 1 + 32 + 8;

    pub const TOKEN_DECIMALS: u8 = 6;

    pub fn new(bump: u8, admin: AccountId, vaults_count: u32) -> (r: Self)
        ensures
            r == (ProgramInfo { bump, admin, vaults_count }),
    {
        Self { bump, admin, vaults_count }
    }

    /// Increment the vault count.
    pub fn increment_vaults_count(&mut self)
        requires
            old(self).vaults_count < u32::MAX,
        ensures
            *final(self) == (ProgramInfo { vaults_count: (old(self).vaults_count + 1) as u32, ..*old(self) }),
    {
        self.vaults_count += 1;
    }
}

/// One change ever applied to a vault's mirrored balance, as the
/// reconciliation history remembers it.
pub enum BalanceEvent {
    Deposit(u64),
    InterestReceived(u64),
    Withdrawal(u64),
    InterestPaidOut(u64),
}

/// The signed contribution of one event to the mirrored balance.
pub open spec fn event_delta(e: BalanceEvent) -> int {
    match e {
        BalanceEvent::Deposit(a) => a as int,
        BalanceEvent::InterestReceived(a) => a as int,
        BalanceEvent::Withdrawal(a) => -(a as int),
        BalanceEvent::InterestPaidOut(a) => -(a as int),
    }
}

/// The balance a vault reaches after applying a history of events to an
/// initially empty vault.
pub open spec fn net_balance(es: Seq<BalanceEvent>) -> int
    decreases es.len(),
{
    if es.len() == 0 {
        0
    } else {
        net_balance(es.drop_last()) + event_delta(es.last())
    }
}

pub open spec fn sum_deposits(es: Seq<BalanceEvent>) -> int
    decreases es.len(),
{
    if es.len() == 0 {
        0
    } else {
        sum_deposits(es.drop_last()) + match es.last() {
            BalanceEvent::Deposit(a) => a as int,
            _ => 0,
        }
    }
}

pub open spec fn sum_interest_received(es: Seq<BalanceEvent>) -> int
    decreases es.len(),
{
    if es.len() == 0 {
        0
    } else {
        sum_interest_received(es.drop_last()) + match es.last() {
            BalanceEvent::InterestReceived(a) => a as int,
            _ => 0,
        }
    }
}

pub open spec fn sum_withdrawals(es: Seq<BalanceEvent>) -> int
    decreases es.len(),
{
    if es.len() == 0 {
        0
    } else {
        sum_withdrawals(es.drop_last()) + match es.last() {
            BalanceEvent::Withdrawal(a) => a as int,
            _ => 0,
        }
    }
}

pub open spec fn sum_interest_paid_out(es: Seq<BalanceEvent>) -> int
    decreases es.len(),
{
    if es.len() == 0 {
        0
    } else {
        sum_interest_paid_out(es.drop_last()) + match es.last() {
            BalanceEvent::InterestPaidOut(a) => a as int,
            _ => 0,
        }
    }
}

/// The net of a history splits into the four sums that the reconciliation
/// statement speaks of: deposits plus interest received, minus withdrawals
/// and interest paid out.
pub proof fn lemma_net_balance_splits(es: Seq<BalanceEvent>)
    ensures
        net_balance(es) == sum_deposits(es) + sum_interest_received(es) - sum_withdrawals(es)
            - sum_interest_paid_out(es),
    decreases es.len(),
{
    if es.len() > 0 {
        lemma_net_balance_splits(es.drop_last());
    }
}

/// Extending a history by one event moves the net by that event's delta.
pub proof fn lemma_net_balance_push(es: Seq<BalanceEvent>, e: BalanceEvent)
    ensures
        net_balance(es.push(e)) == net_balance(es) + event_delta(e),
{
    assert(es.push(e).drop_last() =~= es);
    assert(es.push(e).last() == e);
}

/// A per-depositor record mirroring the balance of one external asset
/// account, together with the ghost history of every change ever applied to
/// that mirror.
#[derive(Clone, Copy)]
pub struct Vault {
    pub bump: u8,
    pub owner: AccountId,
    pub total_balance: u64,
    pub spl_token_account: AccountId,
    pub spl_token_mint: AccountId,
    pub vault_num: u32,
    pub creation_date: i64,
    pub history: Ghost<Seq<BalanceEvent>>,
}

impl Vault {
    pub const MAXIMUM_SPACE: usize = 1 + 16 + 32 + 32 + 32 + 8 + 8;

    /// Well-formedness: the mirrored balance reconciles with the recorded
    /// history, and the creation timestamp is a (non-negative) epoch second.
    pub open spec fn wf(self) -> bool {
        &&& self.total_balance as int == net_balance(self.history@)
        &&& 0 <= self.creation_date
    }

    pub fn new(
        bump: u8,
        owner: AccountId,
        vault_num: u32,
        spl_token_account: AccountId,
        spl_token_mint: AccountId,
        creation_date: i64,
    ) -> (r: Self)
        requires
            0 <= creation_date,
        ensures
            r.wf(),
            r.bump == bump,
            r.owner == owner,
            r.vault_num == vault_num,
            r.spl_token_account == spl_token_account,
            r.spl_token_mint == spl_token_mint,
            r.creation_date == creation_date,
            r.total_balance == 0,
            r.history@ == Seq::<BalanceEvent>::empty(),
    {
        Vault {
            bump,
            owner,
            vault_num,
            spl_token_account,
            spl_token_mint,
            creation_date,
            total_balance: 0,
            history: Ghost(Seq::empty()),
        }
    }

    pub fn has_sufficient_balance(&self, amount: u64) -> (r: bool)
        ensures
            r == (self.total_balance >= amount),
    {
        self.total_balance >= amount
    }

    pub fn verify_spl_token_type(&self, passed_spl_token_account_mint: AccountId) -> (r: bool)
        ensures
            r == (passed_spl_token_account_mint == self.spl_token_mint),
    {
        if passed_spl_token_account_mint != self.spl_token_mint {
            return false;
        }
        true
    }

    /// Raises the mirrored balance; the caller records the matching history
    /// event.
    pub fn update_balance_after_deposit(&mut self, amount: u64)
        requires
            old(self).total_balance + amount <= u64::MAX,
        ensures
            *final(self) == (Vault {
                total_balance: (old(self).total_balance + amount) as u64,
                ..*old(self)
            }),
    {
        self.total_balance += amount;
    }

    /// Lowers the mirrored balance, clamped at zero as a defensive measure
    /// should the mirror ever lag the external account; the caller records
    /// the matching history event.
    pub fn update_balance_after_withdrawal(&mut self, amount: u64)
        ensures
            *final(self) == (Vault {
                total_balance: if old(self).total_balance >= amount {
                    (old(self).total_balance - amount) as u64
                } else {
                    0
                },
                ..*old(self)
            }),
    {
        if self.total_balance >= amount {
            self.total_balance -= amount;
        } else {
            self.total_balance = 0;
        }
    }
}

/// Reconciliation: a well-formed vault's mirrored balance equals the sum of
/// its deposits and interest received, less its withdrawals and interest
/// paid out.
pub proof fn lemma_vault_reconciliation(v: Vault)
    requires
        v.wf(),
    ensures
        v.total_balance as int == sum_deposits(v.history@) + sum_interest_received(v.history@)
            - sum_withdrawals(v.history@) - sum_interest_paid_out(v.history@),
{
    lemma_net_balance_splits(v.history@);
}

} // verus!
