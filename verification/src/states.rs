use vstd::prelude::*;

verus! {

/// Identity of an external account (a validator, a stake account, a token
/// mint, an admin, ...). The ledger only ever stores and compares these;
/// the host runtime maps them to real addresses.
pub type AccountId = u64;

/// Base of all fixed-point quantities (rates and commissions): 10^9.
pub const CAL_BASE: u64 = 1_000_000_000;

/// A freshly initialized pool exchanges principal and receipt tokens 1:1.
pub const DEFAULT_RATE: u64 = 1_000_000_000;

pub const DEFAULT_MIN_STAKE_AMOUNT: u64 = 1_000_000;

pub const DEFAULT_PLATFORM_FEE_COMMISSION: u64 = 100_000_000;

/// Default ceiling on the relative rate move per era: 0.05% of the base.
pub const DEFAULT_RATE_CHANGE_LIMIT: u64 = 500_000;

pub const DEFAULT_STAKE_ACCOUNT_LEN_LIMIT: u64 = 100;

pub const DEFAULT_SPLIT_ACCOUNT_LEN_LIMIT: u64 = 20;

pub const DEFAULT_UNBONDING_DURATION: u64 = 2;

pub const DEFAULT_STACK_FEE_COMMISSION: u64 = 100_000_000;

pub const DEFAULT_STAKE_MANAGERS_LEN_LIMIT: u64 = 20;

pub const ERA_RATES_LEN_LIMIT: u64 = 10;

/// The era scratch record: transient cross-phase accounting for the era in
/// progress, embedded in the pool ledger and reset to all-zero whenever no
/// era-processing obligation remains.
#[derive(Clone, Debug, PartialEq, Eq)]
pub struct EraProcessData {
    /// Principal awaiting delegation this era.
    pub need_bond: u64,
    /// Principal awaiting undelegation this era.
    pub need_unbond: u64,
    /// Active principal snapshotted when the era started.
    pub old_active: u64,
    /// Active principal accumulated for the rate update: delegations made
    /// this era plus the measured balance of the pre-existing stake accounts.
    pub new_active: u64,
    /// Stake accounts created while bonding this era, not yet folded into
    /// the tracked set.
    pub pending_stake_accounts: Vec<AccountId>,
}

impl EraProcessData {
    /// The record is empty exactly when no era-processing obligation remains.
    pub open spec fn spec_is_empty(&self) -> bool {
        &&& self.need_bond == 0
        &&& self.need_unbond == 0
        &&& self.old_active == 0
        &&& self.new_active == 0
        &&& self.pending_stake_accounts@.len() == 0
    }

    pub fn is_empty(&self) -> (r: bool)
        ensures
            r == self.spec_is_empty(),
    {
        self.need_bond == 0 && self.need_unbond == 0 && self.old_active == 0
            && self.new_active == 0 && self.pending_stake_accounts.is_empty()
    }

    /// Guard of the bond phase: principal still awaits delegation.
    pub open spec fn spec_need_bond(&self) -> bool {
        self.need_bond > 0
    }

    pub fn need_bond(&self) -> (r: bool)
        ensures
            r == self.spec_need_bond(),
    {
        self.need_bond > 0
    }

    /// Guard of the unbond phase: principal still awaits undelegation.
    pub open spec fn spec_need_unbond(&self) -> bool {
        self.need_unbond > 0
    }

    pub fn need_unbond(&self) -> (r: bool)
        ensures
            r == self.spec_need_unbond(),
    {
        self.need_unbond > 0
    }

    /// Guard of the skip-bond escape hatch: principal awaits delegation but
    /// the whole remainder is below the external minimum delegable amount,
    /// so an actual delegation call would be refused.
    pub open spec fn spec_need_skip_bond(&self, minimum_delegation: u64) -> bool {
        0 < self.need_bond < minimum_delegation
    }

    pub fn need_skip_bond(&self, minimum_delegation: u64) -> (r: bool)
        ensures
            r == self.spec_need_skip_bond(minimum_delegation),
    {
        0 < self.need_bond && self.need_bond < minimum_delegation
    }

    /// Guard of the update-active phase: bonding is settled, or unbonding is
    /// settled and freshly created stake accounts still await folding.
    pub open spec fn spec_need_update_active(&self) -> bool {
        self.need_bond == 0
            || (self.need_unbond == 0 && self.pending_stake_accounts@.len() != 0)
    }

    pub fn need_update_active(&self) -> (r: bool)
        ensures
            r == self.spec_need_update_active(),
    {
        self.need_bond == 0
            || (self.need_unbond == 0 && !self.pending_stake_accounts.is_empty())
    }

    /// Guard of the rate-update phase: bonding and unbonding are settled,
    /// every new stake account is folded in, and both snapshots of a full
    /// round trip are present.
    pub open spec fn spec_need_update_rate(&self) -> bool {
        &&& self.need_bond == 0
        &&& self.need_unbond == 0
        &&& self.pending_stake_accounts@.len() == 0
        &&& self.old_active != 0
        &&& self.new_active != 0
    }

    pub fn need_update_rate(&self) -> (r: bool)
        ensures
            r == self.spec_need_update_rate(),
    {
        self.need_bond == 0 && self.need_unbond == 0
            && self.pending_stake_accounts.is_empty() && self.old_active != 0
            && self.new_active != 0
    }
}

/// One historical exchange-rate sample.
#[derive(Clone, Copy, Debug, PartialEq, Eq)]
pub struct EraRate {
    pub era: u64,
    pub rate: u64,
}

/// The umbrella entity: owns several pools and skims a commission from each
/// pool's platform fee.
#[derive(Clone, Debug, PartialEq, Eq)]
pub struct Stack {
    pub admin: AccountId,
    /// Share of the platform fee routed to the umbrella, fixed-point over
    /// [`CAL_BASE`]; never more than the whole fee.
    pub stack_fee_commission: u64,
    pub stake_managers_len_limit: u64,
    pub entrusted_stake_managers: Vec<AccountId>,
}

/// Secondary fee bucket at the umbrella level, mutated only by the
/// rate-update phase.
#[derive(Clone, Copy, Debug, PartialEq, Eq)]
pub struct StackFeeAccount {
    pub bump: u8,
    pub amount: u64,
}

/// A redeem request: principal owed to `recipient`, payable once
/// `created_epoch` plus the pool's unbonding duration has been reached.
#[derive(Clone, Copy, Debug, PartialEq, Eq)]
pub struct UnstakeAccount {
    pub stake_manager: AccountId,
    pub recipient: AccountId,
    pub amount: u64,
    pub created_epoch: u64,
}

/// What the ledger reads of an external receipt-token holding: who owns it,
/// its balance, and any approved delegate with its remaining allowance.
#[derive(Clone, Copy, Debug, PartialEq, Eq)]
pub struct TokenAccountInfo {
    pub owner: AccountId,
    pub amount: u64,
    pub delegate: Option<AccountId>,
    pub delegated_amount: u64,
}

/// What the ledger reads of the external receipt-token mint when a pool is
/// initialized.
#[derive(Clone, Copy, Debug, PartialEq, Eq)]
pub struct MintInfo {
    pub mint_authority: Option<AccountId>,
    pub freeze_authority: Option<AccountId>,
    pub supply: u64,
}

/// The durable per-pool ledger: identities, limits, the exchange rate, the
/// running totals, the tracked external account sets and the embedded era
/// scratch record.
#[derive(Clone, Debug, PartialEq, Eq)]
pub struct StakeManager {
    pub admin: AccountId,
    pub balancer: AccountId,
    pub stack: AccountId,
    pub lsd_token_mint: AccountId,

    pub min_stake_amount: u64,
    pub platform_fee_commission: u64,
    pub stack_fee_commission: u64,
    pub rate_change_limit: u64,
    pub stake_accounts_len_limit: u64,
    pub split_accounts_len_limit: u64,
    pub unbonding_duration: u64,

    pub latest_era: u64,
    /// Principal per receipt token, fixed-point over [`CAL_BASE`];
    /// always positive.
    pub rate: u64,
    /// Principal received this era and not yet carried into an era's bonding.
    pub era_bond: u64,
    /// Principal owed this era and not yet carried into an era's unbonding.
    pub era_unbond: u64,
    /// Principal currently delegated and presumed earning.
    pub active: u64,
    pub total_platform_fee: u64,
    pub validators: Vec<AccountId>,
    pub stake_accounts: Vec<AccountId>,
    pub split_accounts: Vec<AccountId>,
    pub era_rates: Vec<EraRate>,
    pub era_process_data: EraProcessData,
}

/// Mathematical model of the era scratch record: the same numbers, with the
/// pending-account list abstracted to a sequence.
#[verifier::ext_equal]
pub struct EraProcessDataView {
    pub need_bond: u64,
    pub need_unbond: u64,
    pub old_active: u64,
    pub new_active: u64,
    pub pending_stake_accounts: Seq<AccountId>,
}

impl View for EraProcessData {
    type V = EraProcessDataView;

    open spec fn view(&self) -> EraProcessDataView {
        EraProcessDataView {
            need_bond: self.need_bond,
            need_unbond: self.need_unbond,
            old_active: self.old_active,
            new_active: self.new_active,
            pending_stake_accounts: self.pending_stake_accounts@,
        }
    }
}

/// Mathematical model of the pool ledger: the same fields, with the account
/// lists abstracted to sequences. Every operation's contract states the
/// ledger after the call as one value of this model.
#[verifier::ext_equal]
pub struct StakeManagerView {
    pub admin: AccountId,
    pub balancer: AccountId,
    pub stack: AccountId,
    pub lsd_token_mint: AccountId,
    pub min_stake_amount: u64,
    pub platform_fee_commission: u64,
    pub stack_fee_commission: u64,
    pub rate_change_limit: u64,
    pub stake_accounts_len_limit: u64,
    pub split_accounts_len_limit: u64,
    pub unbonding_duration: u64,
    pub latest_era: u64,
    pub rate: u64,
    pub era_bond: u64,
    pub era_unbond: u64,
    pub active: u64,
    pub total_platform_fee: u64,
    pub validators: Seq<AccountId>,
    pub stake_accounts: Seq<AccountId>,
    pub split_accounts: Seq<AccountId>,
    pub era_rates: Seq<EraRate>,
    pub era_process_data: EraProcessDataView,
}

impl View for StakeManager {
    type V = StakeManagerView;

    open spec fn view(&self) -> StakeManagerView {
        StakeManagerView {
            admin: self.admin,
            balancer: self.balancer,
            stack: self.stack,
            lsd_token_mint: self.lsd_token_mint,
            min_stake_amount: self.min_stake_amount,
            platform_fee_commission: self.platform_fee_commission,
            stack_fee_commission: self.stack_fee_commission,
            rate_change_limit: self.rate_change_limit,
            stake_accounts_len_limit: self.stake_accounts_len_limit,
            split_accounts_len_limit: self.split_accounts_len_limit,
            unbonding_duration: self.unbonding_duration,
            latest_era: self.latest_era,
            rate: self.rate,
            era_bond: self.era_bond,
            era_unbond: self.era_unbond,
            active: self.active,
            total_platform_fee: self.total_platform_fee,
            validators: self.validators@,
            stake_accounts: self.stake_accounts@,
            split_accounts: self.split_accounts@,
            era_rates: self.era_rates@,
            era_process_data: self.era_process_data@,
        }
    }
}

impl StakeManager {
    /// Well-formedness of a pool ledger. The rate is positive, so every
    /// conversion divides soundly; the rate-change ceiling is a proper
    /// fraction of the base, so a clamped rate update can never drive the
    /// rate to zero.
    pub open spec fn wf(&self) -> bool {
        &&& self.rate > 0
        &&& self.rate_change_limit < CAL_BASE
    }
}

impl Stack {
    /// The umbrella commission is a fraction of the platform fee, so the
    /// skimmed share never exceeds the fee it is taken from.
    pub open spec fn wf(&self) -> bool {
        self.stack_fee_commission <= CAL_BASE
    }
}

/// Whether the id list holds `x`.
pub fn contains_id(v: &Vec<AccountId>, x: AccountId) -> (r: bool)
    ensures
        r == v@.contains(x),
{
    let mut i: usize = 0;
    while i < v.len()
        invariant
            0 <= i <= v@.len(),
            forall|j: int| 0 <= j < i ==> v@[j] != x,
        decreases v@.len() - i,
    {
        if v[i] == x {
            assert(v@.contains(x)) by {
                assert(v@[i as int] == x);
            }
            return true;
        }
        i += 1;
    }
    assert(forall|j: int| 0 <= j < v@.len() ==> v@[j] != x);
    false
}

/// An id list with every occurrence of `x` removed; the order of the rest
/// is kept.
pub open spec fn without_id(ids: Seq<AccountId>, x: AccountId) -> Seq<AccountId> {
    ids.filter(|y: AccountId| y != x)
}

/// How [`without_id`] grows along a prefix scan: keeping one more element
/// keeps it exactly when it is not the removed id.
proof fn lemma_without_id_step(ids: Seq<AccountId>, i: int, x: AccountId)
    requires
        0 <= i < ids.len(),
    ensures
        without_id(ids.take(i + 1), x) == if ids[i] != x {
            without_id(ids.take(i), x).push(ids[i])
        } else {
            without_id(ids.take(i), x)
        },
{
    reveal(Seq::filter);
    assert(ids.take(i + 1).drop_last() =~= ids.take(i));
    assert(ids.take(i + 1).last() == ids[i]);
}

/// Removes every occurrence of `x` from the id list, keeping the order of
/// the rest.
pub fn remove_id_all(v: &mut Vec<AccountId>, x: AccountId)
    ensures
        final(v)@ == without_id(old(v)@, x),
{
    let ghost orig = v@;
    let mut kept: Vec<AccountId> = Vec::new();
    proof {
        assert(orig.take(0) =~= Seq::<AccountId>::empty());
    }
    let mut i: usize = 0;
    while i < v.len()
        invariant
            orig == old(v)@,
            v@ == orig,
            0 <= i <= orig.len(),
            kept@ == without_id(orig.take(i as int), x),
        decreases orig.len() - i,
    {
        let id = v[i];
        proof {
            lemma_without_id_step(orig, i as int, x);
        }
        if id != x {
            kept.push(id);
        }
        i += 1;
    }
    proof {
        assert(orig.take(orig.len() as int) =~= orig);
    }
    *v = kept;
}

} // verus!
