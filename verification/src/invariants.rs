//! What holds of the records whatever is done to them, in whatever order.
//!
//! A fund's history is a sequence of steps, each of which the fund either
//! takes or rejects; a rejected step leaves the fund as it was. The same goes
//! for a vault, and for the registry through a history of attempts to create
//! funds. The theorems here are stated over such histories and over the spec
//! functions that the operations' contracts are written in.

use vstd::prelude::*;
use vstd::bytes::{lemma_auto_spec_u64_to_from_le_bytes, spec_u64_from_le_bytes, spec_u64_to_le_bytes};
use crate::account::Account;
use crate::error::{committed_with, ErrorCode, ErrorKind};
use crate::pda::rbf_seeds;
use crate::pubkey::{lemma_pubkey_by_bytes, Pubkey};
use crate::rbf::instructions::create_rbf::{
    spec_create_rbf, spec_holds_permission, spec_references_valid, CreateRbf, FundSetup, RbfInitParams,
};
use crate::rbf::instructions::create_rbf_auth::{spec_create_rbf_auth, CreateRbfAuth};
use crate::rbf::instructions::create_rbf_revoke::{spec_revoke_rbf_auth, CreateRbfRevoke};
use crate::rbf::instructions::initialize::{spec_initialize, Initialize};
use crate::rbf::instructions::open_redemption::{spec_open_redemption, OpenRedemption};
use crate::rbf::instructions::update_vault::{spec_update_vault, UpdateVault};
use crate::rbf::state::{GlobalConfig, RBFStatus, RBF};
use crate::vault::accounting::{
    spec_deposit, spec_rbf_liquidation, spec_rbf_subscription, spec_vault_add_liquidity,
    spec_vault_remove_liquidity, spec_withdraw, Deposit, RBFLiquidation, RBFSubscription, VaultAddLiquidity,
    VaultRemoveLiquidity, Withdraw,
};
use crate::vault::instructions::create_vault::{spec_create_vault, CreateVault, CreateVaultParams};
use crate::vault::instructions::create_vault_revoke::{spec_create_vault_revoke, CreateVaultRevoke};
use crate::vault::state::Vault;

verus! {

/// A step in the history of a fund.
pub enum FundOp {
    BindVault { authority: Pubkey, vault: Pubkey },
    OpenRedemption { authority: Pubkey },
    RecordSubscription { amount: u64 },
    RecordRedemption { amount: u64 },
}

/// What a step makes of a fund, or why the fund rejects it.
pub open spec fn fund_step(fund: RBF, op: FundOp) -> Result<RBF, ErrorCode> {
    match op {
        FundOp::BindVault { authority, vault } => fund.spec_bind_vault(authority, vault),
        FundOp::OpenRedemption { authority } => fund.spec_open_redemption(authority),
        FundOp::RecordSubscription { amount } => fund.spec_record_subscription(amount),
        FundOp::RecordRedemption { amount } => fund.spec_record_redemption(amount),
    }
}

/// The fund after a step: changed if the step was taken, the same if not.
pub open spec fn fund_after(fund: RBF, op: FundOp) -> RBF {
    match fund_step(fund, op) {
        Ok(next) => next,
        Err(_) => fund,
    }
}

/// The fund after a whole history.
pub open spec fn fund_run(fund: RBF, ops: Seq<FundOp>) -> RBF
    decreases ops.len(),
{
    if ops.len() == 0 {
        fund
    } else {
        fund_after(fund_run(fund, ops.drop_last()), ops.last())
    }
}

/// How often the status changed in the course of a history.
pub open spec fn status_changes(fund: RBF, ops: Seq<FundOp>) -> nat
    decreases ops.len(),
{
    if ops.len() == 0 {
        0
    } else {
        let before = fund_run(fund, ops.drop_last());
        let changed: nat = if fund_after(before, ops.last()).status != before.status {
            1
        } else {
            0
        };
        status_changes(fund, ops.drop_last()) + changed
    }
}

/// Every operation that is handed an existing fund takes the fund one step of
/// its history, or leaves it alone: binding a vault, opening redemption,
/// subscribing and liquidating through a vault, and creating a vault.
pub proof fn lemma_operations_are_steps(
    bind: UpdateVault,
    new_vault: Pubkey,
    open: OpenRedemption,
    subscribe: RBFSubscription,
    liquidate: RBFLiquidation,
    amount: u64,
    create: CreateVault,
    params: CreateVaultParams,
    bump: Option<u8>,
)
    ensures
        spec_update_vault(bind, new_vault) matches Ok(post) ==> post.rbf == fund_after(
            bind.rbf,
            FundOp::BindVault { authority: bind.authority, vault: new_vault },
        ),
        spec_open_redemption(open) matches Ok(post) ==> post.rbf == fund_after(
            open.rbf,
            FundOp::OpenRedemption { authority: open.authority },
        ),
        spec_rbf_subscription(subscribe, amount) matches Ok(post) ==> post.rbf.data == Some(
            fund_after(subscribe.rbf.data->Some_0, FundOp::RecordSubscription { amount }),
        ),
        spec_rbf_liquidation(liquidate, amount) matches Ok(post) ==> post.rbf.data == Some(
            fund_after(liquidate.rbf.data->Some_0, FundOp::RecordRedemption { amount }),
        ),
        spec_create_vault(create, params, bump) matches Ok(post) ==> post.rbf == create.rbf,
{
}

/// Nothing is ever created over a record that exists: the registry, a
/// delegation record, a fund and a vault are each stored only where nothing
/// was stored before. So no record's history can be started afresh.
pub proof fn lemma_creation_never_overwrites(
    registry: Initialize,
    grant: CreateRbfAuth,
    fund: CreateRbf,
    fund_params: RbfInitParams,
    vault: CreateVault,
    vault_params: CreateVaultParams,
    first: Option<u8>,
    second: Option<u8>,
    third: Option<u8>,
)
    ensures
        spec_initialize(registry, first) is Ok ==> registry.global_config.data is None,
        spec_create_rbf_auth(grant, first) is Ok ==> grant.rbf_auth.data is None,
        spec_create_rbf(fund, fund_params, first, second, third) is Ok ==> fund.rbf.data is None,
        spec_create_vault(vault, vault_params, first) is Ok ==> vault.vault.data is None,
{
}

/// A fund's status moves at most once in its whole history, from running to
/// liquidating, and a liquidating fund never runs again.
pub proof fn lemma_status_moves_once(fund: RBF, ops: Seq<FundOp>)
    ensures
        status_changes(fund, ops) <= 1,
        status_changes(fund, ops) == 1 <==> fund.status == RBFStatus::Running && fund_run(fund, ops).status
            == RBFStatus::Liquidating,
        fund.status == RBFStatus::Liquidating ==> fund_run(fund, ops).status == RBFStatus::Liquidating,
    decreases ops.len(),
{
    if ops.len() > 0 {
        lemma_status_moves_once(fund, ops.drop_last());
    }
}

/// Once a fund is bound to a vault, every later attempt to bind it is
/// rejected for the fund's state, and the binding stays what it is through
/// the rest of the fund's history.
pub proof fn lemma_vault_binding_is_final(fund: RBF, authority: Pubkey, vault: Pubkey, ops: Seq<FundOp>)
    requires
        fund.vault is Some,
    ensures
        fund.spec_bind_vault(authority, vault) == Err::<RBF, ErrorCode>(ErrorCode::VaultAlreadySet),
        ErrorCode::VaultAlreadySet.spec_kind() == ErrorKind::State,
        fund_run(fund, ops).vault == fund.vault,
    decreases ops.len(),
{
    if ops.len() > 0 {
        lemma_vault_binding_is_final(fund, authority, vault, ops.drop_last());
    }
}

/// A fund's totals never go down in the course of its history.
pub proof fn lemma_totals_never_decrease(fund: RBF, ops: Seq<FundOp>)
    ensures
        fund_run(fund, ops).total_subscription >= fund.total_subscription,
        fund_run(fund, ops).total_redemption >= fund.total_redemption,
    decreases ops.len(),
{
    if ops.len() > 0 {
        lemma_totals_never_decrease(fund, ops.drop_last());
    }
}

/// Nothing in a fund's history touches who its creator, manager and risk
/// oracle are, nor its mints and accounts.
pub proof fn lemma_roles_are_fixed(fund: RBF, ops: Seq<FundOp>)
    ensures
        fund_run(fund, ops).creater == fund.creater,
        fund_run(fund, ops).manager == fund.manager,
        fund_run(fund, ops).drds == fund.drds,
        fund_run(fund, ops).asset_mint == fund.asset_mint,
        fund_run(fund, ops).rbf_mint == fund.rbf_mint,
        fund_run(fund, ops).asset_treasury == fund.asset_treasury,
        fund_run(fund, ops).asset_recipient == fund.asset_recipient,
        fund_run(fund, ops).liquidation_slippage == fund.liquidation_slippage,
        fund_run(fund, ops).bump == fund.bump,
    decreases ops.len(),
{
    if ops.len() > 0 {
        lemma_roles_are_fixed(fund, ops.drop_last());
    }
}

/// The registry's nonce goes up by exactly one when a fund is created and
/// stays where it is when the creation is rejected. The fund that is created
/// is running, with nothing bound and nothing recorded, and its share mint
/// is asked for under the fund's own authority.
pub proof fn lemma_nonce_counts_creations(
    pre: CreateRbf,
    post: CreateRbf,
    answer: Result<FundSetup, ErrorCode>,
    params: RbfInitParams,
    config_bump: Option<u8>,
    auth_bump: Option<u8>,
    rbf_bump: Option<u8>,
)
    requires
        committed_with(pre, post, answer, spec_create_rbf(pre, params, config_bump, auth_bump, rbf_bump)),
    ensures
        answer is Ok ==> {
            &&& pre.global_config.data is Some
            &&& post.global_config.data is Some
            &&& post.global_config.data->Some_0.rbf_nonce == pre.global_config.data->Some_0.rbf_nonce + 1
            &&& post.global_config.data->Some_0.admin == pre.global_config.data->Some_0.admin
            &&& post.rbf.data matches Some(fund)
            &&& fund.status == RBFStatus::Running
            &&& fund.vault is None
            &&& fund.total_subscription == 0
            &&& fund.total_redemption == 0
            &&& fund.rbf_mint == answer->Ok_0.rbf_mint
            &&& answer->Ok_0.mint_authority == post.rbf.key
        },
        answer is Err ==> post == pre,
{
}

/// The seeds of a fund say who created it and with which nonce: two funds
/// have the same seeds only if they have the same creator and the same nonce.
pub proof fn lemma_fund_seeds_are_one_to_one(first_creator: Pubkey, first: u64, second_creator: Pubkey, second: u64)
    ensures
        rbf_seeds(first_creator, first) == rbf_seeds(second_creator, second) <==> first_creator == second_creator
            && first == second,
{
    lemma_auto_spec_u64_to_from_le_bytes();
    lemma_pubkey_by_bytes(first_creator, second_creator);
    if rbf_seeds(first_creator, first) == rbf_seeds(second_creator, second) {
        assert(rbf_seeds(first_creator, first)[1] == first_creator@);
        assert(rbf_seeds(second_creator, second)[1] == second_creator@);
        assert(rbf_seeds(first_creator, first)[2] == spec_u64_to_le_bytes(first));
        assert(rbf_seeds(second_creator, second)[2] == spec_u64_to_le_bytes(second));
        assert(spec_u64_from_le_bytes(spec_u64_to_le_bytes(first)) == first);
        assert(spec_u64_from_le_bytes(spec_u64_to_le_bytes(second)) == second);
    }
}

/// An attempt to create a fund: everything that the creation is handed but
/// the registry's record, which is the one that the history has reached.
pub struct CreationAttempt {
    pub ctx: CreateRbf,
    pub params: RbfInitParams,
    pub config_bump: Option<u8>,
    pub auth_bump: Option<u8>,
    pub rbf_bump: Option<u8>,
}

/// What an attempt does when the registry holds `config`.
pub open spec fn attempt_on(config: GlobalConfig, attempt: CreationAttempt) -> Result<(CreateRbf, FundSetup), ErrorCode> {
    spec_create_rbf(
        CreateRbf { global_config: Account { data: Some(config), ..attempt.ctx.global_config }, ..attempt.ctx },
        attempt.params,
        attempt.config_bump,
        attempt.auth_bump,
        attempt.rbf_bump,
    )
}

/// The registry after an attempt: as the creation stored it if the attempt
/// was accepted, the same if not.
pub open spec fn registry_after(config: GlobalConfig, attempt: CreationAttempt) -> GlobalConfig {
    match attempt_on(config, attempt) {
        Ok((post, _)) => post.global_config.data->Some_0,
        Err(_) => config,
    }
}

/// The registry after a whole history of attempts.
pub open spec fn registry_run(config: GlobalConfig, attempts: Seq<CreationAttempt>) -> GlobalConfig
    decreases attempts.len(),
{
    if attempts.len() == 0 {
        config
    } else {
        registry_after(registry_run(config, attempts.drop_last()), attempts.last())
    }
}

/// How many attempts of a history were accepted.
pub open spec fn creations(config: GlobalConfig, attempts: Seq<CreationAttempt>) -> nat
    decreases attempts.len(),
{
    if attempts.len() == 0 {
        0
    } else {
        let accepted: nat = if attempt_on(registry_run(config, attempts.drop_last()), attempts.last()) is Ok {
            1
        } else {
            0
        };
        creations(config, attempts.drop_last()) + accepted
    }
}

/// The nonce that the attempt at `at` took, if it was accepted: the one that
/// the registry held when the attempt was made.
pub open spec fn nonce_taken(config: GlobalConfig, attempts: Seq<CreationAttempt>, at: int) -> Option<u64> {
    let before = registry_run(config, attempts.take(at));
    if attempt_on(before, attempts[at]) is Ok {
        Some(before.rbf_nonce)
    } else {
        None
    }
}

/// Through any history of attempts the registry's nonce is where it started
/// plus the number of funds created: one up for each accepted attempt, none
/// for a rejected one. The administrator and the bump seed never change.
pub proof fn lemma_nonce_counts_all_creations(config: GlobalConfig, attempts: Seq<CreationAttempt>)
    ensures
        registry_run(config, attempts).rbf_nonce == config.rbf_nonce + creations(config, attempts),
        registry_run(config, attempts).admin == config.admin,
        registry_run(config, attempts).bump == config.bump,
    decreases attempts.len(),
{
    if attempts.len() > 0 {
        lemma_nonce_counts_all_creations(config, attempts.drop_last());
    }
}

/// The nonce never goes back: after any part of a history it is at most what
/// it is after the whole.
pub proof fn lemma_nonce_only_grows(config: GlobalConfig, attempts: Seq<CreationAttempt>, at: int)
    requires
        0 <= at <= attempts.len(),
    ensures
        registry_run(config, attempts.take(at)).rbf_nonce <= registry_run(config, attempts).rbf_nonce,
    decreases attempts.len(),
{
    if at == attempts.len() {
        assert(attempts.take(at) =~= attempts);
    } else {
        assert(attempts.drop_last().take(at) =~= attempts.take(at));
        lemma_nonce_only_grows(config, attempts.drop_last(), at);
    }
}

/// Every nonce is taken at most once: of two accepted attempts in a history
/// the later took a higher nonce than the earlier, so the two funds have
/// different seeds, whoever created them.
pub proof fn lemma_nonces_are_taken_once(
    config: GlobalConfig,
    attempts: Seq<CreationAttempt>,
    earlier: int,
    later: int,
)
    requires
        0 <= earlier < later < attempts.len(),
        nonce_taken(config, attempts, earlier) is Some,
        nonce_taken(config, attempts, later) is Some,
    ensures
        nonce_taken(config, attempts, earlier)->Some_0 < nonce_taken(config, attempts, later)->Some_0,
        rbf_seeds(attempts[earlier].ctx.creator, nonce_taken(config, attempts, earlier)->Some_0) != rbf_seeds(
            attempts[later].ctx.creator,
            nonce_taken(config, attempts, later)->Some_0,
        ),
{
    let through = attempts.take(earlier + 1);
    assert(through.drop_last() =~= attempts.take(earlier));
    assert(through.last() == attempts[earlier]);
    assert(registry_run(config, through).rbf_nonce == nonce_taken(config, attempts, earlier)->Some_0 + 1);
    assert(attempts.take(later).take(earlier + 1) =~= through);
    lemma_nonce_only_grows(config, attempts.take(later), earlier + 1);
    lemma_fund_seeds_are_one_to_one(
        attempts[earlier].ctx.creator,
        nonce_taken(config, attempts, earlier)->Some_0,
        attempts[later].ctx.creator,
        nonce_taken(config, attempts, later)->Some_0,
    );
}

/// A creation is rejected for want of authorization exactly when no
/// delegation record stands for the creator: the record is the permission.
pub proof fn lemma_record_is_permission(
    pre: CreateRbf,
    params: RbfInitParams,
    config_bump: Option<u8>,
    auth_bump: Option<u8>,
    rbf_bump: Option<u8>,
)
    ensures
        spec_holds_permission(pre.rbf_auth, pre.creator, auth_bump) <==> spec_create_rbf(
            pre,
            params,
            config_bump,
            auth_bump,
            rbf_bump,
        ) != Err::<(CreateRbf, FundSetup), ErrorCode>(ErrorCode::InvalidAuthAccount),
        ErrorCode::InvalidAuthAccount.spec_kind() == ErrorKind::Authorization,
{
}

/// Where nothing else stands in the way, the record decides: with the
/// registry at its address, a nonce left to take, the fund's place derived
/// and free, and valid references, a creation is accepted exactly when the
/// creator's delegation record stands, and is rejected for want of
/// authorization when it does not.
pub proof fn lemma_permission_decides_creation(
    pre: CreateRbf,
    params: RbfInitParams,
    config_bump: Option<u8>,
    auth_bump: Option<u8>,
    rbf_bump: Option<u8>,
)
    requires
        pre.global_config.data matches Some(config) && config_bump == Some(config.bump) && config.rbf_nonce
            < u64::MAX,
        rbf_bump is Some,
        pre.rbf.data is None,
        spec_references_valid(pre),
    ensures
        spec_create_rbf(pre, params, config_bump, auth_bump, rbf_bump) is Ok <==> spec_holds_permission(
            pre.rbf_auth,
            pre.creator,
            auth_bump,
        ),
        !spec_holds_permission(pre.rbf_auth, pre.creator, auth_bump) ==> spec_create_rbf(
            pre,
            params,
            config_bump,
            auth_bump,
            rbf_bump,
        ) == Err::<(CreateRbf, FundSetup), ErrorCode>(ErrorCode::InvalidAuthAccount),
{
}

/// A revocation that names another creator than the record does is rejected
/// for want of authorization, whoever calls and wherever the record stands.
/// The same holds of vault delegation records.
pub proof fn lemma_revoke_needs_the_named_creator(
    fund_side: CreateRbfRevoke,
    vault_side: CreateVaultRevoke,
    bump: Option<u8>,
)
    ensures
        fund_side.rbf_auth.data matches Some(record) && record.creator != fund_side.creator ==> {
            &&& spec_revoke_rbf_auth(fund_side, bump) is Err
            &&& spec_revoke_rbf_auth(fund_side, bump)->Err_0.spec_kind() == ErrorKind::Authorization
        },
        fund_side.rbf_auth.data matches Some(record) && record.creator != fund_side.creator && fund_side.admin
            == fund_side.global_config.admin ==> spec_revoke_rbf_auth(fund_side, bump) == Err::<
            (CreateRbfRevoke, crate::account::Refund),
            ErrorCode,
        >(ErrorCode::InvalidAuthAccount),
        vault_side.vault_auth.data matches Some(record) && record.creator != vault_side.creator ==> {
            &&& spec_create_vault_revoke(vault_side, bump) is Err
            &&& spec_create_vault_revoke(vault_side, bump)->Err_0.spec_kind() == ErrorKind::Authorization
        },
        vault_side.vault_auth.data matches Some(record) && record.creator != vault_side.creator
            && vault_side.admin == vault_side.global_config.admin ==> spec_create_vault_revoke(vault_side, bump)
            == Err::<(CreateVaultRevoke, crate::account::Refund), ErrorCode>(ErrorCode::InvalidAuthAccount),
{
}

/// A vault is created only by the manager of its fund, for a fund that is not
/// bound yet, and it starts linked to that fund with nothing accounted for.
pub proof fn lemma_vault_is_created_by_the_manager(pre: CreateVault, params: CreateVaultParams, bump: Option<u8>)
    ensures
        spec_create_vault(pre, params, bump) matches Ok(post) ==> {
            &&& pre.rbf.data matches Some(fund)
            &&& pre.creator == fund.manager
            &&& fund.vault is None
            &&& post.vault.data matches Some(vault)
            &&& vault.creater == fund.manager
            &&& vault.rbf == pre.rbf.key
            &&& vault.fund_amount == 0
            &&& vault.rbf_fund_amount == 0
            &&& vault.dex_fund_amount == 0
            &&& vault.wf()
        },
        pre.rbf.data matches Some(fund) && fund.vault is None && pre.creator != fund.manager
            ==> spec_create_vault(pre, params, bump) == Err::<CreateVault, ErrorCode>(ErrorCode::Unauthorized),
{
}

/// A grant that is accepted leaves a record that stands for the creator, and
/// a grant is never accepted while a record exists at the place.
pub proof fn lemma_grant_gives_permission(pre: CreateRbfAuth, bump: Option<u8>)
    ensures
        spec_create_rbf_auth(pre, bump) matches Ok(post) ==> spec_holds_permission(
            post.rbf_auth,
            pre.creator,
            bump,
        ),
        pre.rbf_auth.data is Some ==> spec_create_rbf_auth(pre, bump) is Err,
{
}

/// A revocation that is accepted leaves no record, so the creator holds no
/// permission; and the administrator who revoked can grant again at once,
/// which gives the permission back.
pub proof fn lemma_revoke_takes_permission(pre: CreateRbfRevoke, bump: Option<u8>)
    ensures
        spec_revoke_rbf_auth(pre, bump) matches Ok((post, refund)) ==> {
            &&& post.rbf_auth.data is None
            &&& forall|any: Option<u8>| !spec_holds_permission(post.rbf_auth, pre.creator, any)
            &&& refund.recipient == pre.admin
            &&& refund.lamports == pre.rbf_auth.lamports
            &&& spec_create_rbf_auth(
                CreateRbfAuth {
                    program_id: post.program_id,
                    global_config: post.global_config,
                    admin: post.admin,
                    rbf_auth: post.rbf_auth,
                    creator: post.creator,
                },
                bump,
            ) matches Ok(again)
            &&& spec_holds_permission(again.rbf_auth, pre.creator, bump)
        },
{
}

/// A step in the history of a vault.
pub enum VaultOp {
    Deposit { amount: u64, now: i64 },
    Withdraw { authority: Pubkey, amount: u64 },
    AddLiquidity { authority: Pubkey, amount: u64 },
    RemoveLiquidity { authority: Pubkey, amount: u64 },
    DeployToFund { authorized: bool, amount: u64 },
    ReturnFromFund { authorized: bool, amount: u64 },
}

/// What a step makes of a vault, or why the vault rejects it.
pub open spec fn vault_step(vault: Vault, op: VaultOp) -> Result<Vault, ErrorCode> {
    match op {
        VaultOp::Deposit { amount, now } => vault.spec_deposit(amount, now),
        VaultOp::Withdraw { authority, amount } => vault.spec_withdraw(authority, amount),
        VaultOp::AddLiquidity { authority, amount } => vault.spec_add_liquidity(authority, amount),
        VaultOp::RemoveLiquidity { authority, amount } => vault.spec_remove_liquidity(authority, amount),
        VaultOp::DeployToFund { authorized, amount } => vault.spec_deploy_to_fund(authorized, amount),
        VaultOp::ReturnFromFund { authorized, amount } => vault.spec_return_from_fund(authorized, amount),
    }
}

/// The vault after a step: changed if the step was taken, the same if not.
pub open spec fn vault_after(vault: Vault, op: VaultOp) -> Vault {
    match vault_step(vault, op) {
        Ok(next) => next,
        Err(_) => vault,
    }
}

/// The vault after a whole history.
pub open spec fn vault_run(vault: Vault, ops: Seq<VaultOp>) -> Vault
    decreases ops.len(),
{
    if ops.len() == 0 {
        vault
    } else {
        vault_after(vault_run(vault, ops.drop_last()), ops.last())
    }
}

/// Every operation on a vault takes the vault one step of its history.
pub proof fn lemma_vault_operations_are_steps(
    deposit: Deposit,
    now: i64,
    withdraw: Withdraw,
    add: VaultAddLiquidity,
    remove: VaultRemoveLiquidity,
    subscribe: RBFSubscription,
    liquidate: RBFLiquidation,
    amount: u64,
)
    ensures
        spec_deposit(deposit, amount, now) matches Ok(post) ==> post.vault == vault_after(
            deposit.vault,
            VaultOp::Deposit { amount, now },
        ),
        spec_withdraw(withdraw, amount) matches Ok(post) ==> post.vault == vault_after(
            withdraw.vault,
            VaultOp::Withdraw { authority: withdraw.authority, amount },
        ),
        spec_vault_add_liquidity(add, amount) matches Ok(post) ==> post.vault == vault_after(
            add.vault,
            VaultOp::AddLiquidity { authority: add.authority, amount },
        ),
        spec_vault_remove_liquidity(remove, amount) matches Ok(post) ==> post.vault == vault_after(
            remove.vault,
            VaultOp::RemoveLiquidity { authority: remove.authority, amount },
        ),
        spec_rbf_subscription(subscribe, amount) matches Ok(post) ==> post.vault == vault_after(
            subscribe.vault,
            VaultOp::DeployToFund { authorized: true, amount },
        ),
        spec_rbf_liquidation(liquidate, amount) matches Ok(post) ==> post.vault == vault_after(
            liquidate.vault,
            VaultOp::ReturnFromFund { authorized: true, amount },
        ),
{
}

/// Through a vault's whole history its balances stay consistent: what it
/// accounts for is the idle balance and the two deployed balances together,
/// none of them negative. The vault's fund and its roles never change.
pub proof fn lemma_vault_balances_are_conserved(vault: Vault, ops: Seq<VaultOp>)
    requires
        vault.wf(),
    ensures
        vault_run(vault, ops).wf(),
        vault_run(vault, ops).spec_idle() >= 0,
        vault_run(vault, ops).fund_amount == vault_run(vault, ops).spec_idle() + vault_run(
            vault,
            ops,
        ).rbf_fund_amount + vault_run(vault, ops).dex_fund_amount,
        vault_run(vault, ops).rbf == vault.rbf,
        vault_run(vault, ops).manager == vault.manager,
        vault_run(vault, ops).dexBot == vault.dexBot,
    decreases ops.len(),
{
    if ops.len() > 0 {
        lemma_vault_balances_are_conserved(vault, ops.drop_last());
    }
}

/// What each accepted step does to the three balances of a consistent vault:
/// a deposit and a withdrawal change the idle balance alone; the other steps
/// move the amount between the idle balance and one deployed balance.
pub proof fn lemma_vault_step_moves(vault: Vault, op: VaultOp)
    requires
        vault.wf(),
    ensures
        vault_step(vault, op) matches Ok(next) ==> match op {
            VaultOp::Deposit { amount, .. } => {
                &&& next.spec_idle() == vault.spec_idle() + amount
                &&& next.rbf_fund_amount == vault.rbf_fund_amount
                &&& next.dex_fund_amount == vault.dex_fund_amount
            },
            VaultOp::Withdraw { amount, .. } => {
                &&& next.spec_idle() == vault.spec_idle() - amount
                &&& next.rbf_fund_amount == vault.rbf_fund_amount
                &&& next.dex_fund_amount == vault.dex_fund_amount
            },
            VaultOp::AddLiquidity { amount, .. } => {
                &&& next.spec_idle() == vault.spec_idle() - amount
                &&& next.rbf_fund_amount == vault.rbf_fund_amount
                &&& next.dex_fund_amount == vault.dex_fund_amount + amount
            },
            VaultOp::RemoveLiquidity { amount, .. } => {
                &&& next.spec_idle() == vault.spec_idle() + amount
                &&& next.rbf_fund_amount == vault.rbf_fund_amount
                &&& next.dex_fund_amount == vault.dex_fund_amount - amount
            },
            VaultOp::DeployToFund { amount, .. } => {
                &&& next.spec_idle() == vault.spec_idle() - amount
                &&& next.rbf_fund_amount == vault.rbf_fund_amount + amount
                &&& next.dex_fund_amount == vault.dex_fund_amount
            },
            VaultOp::ReturnFromFund { amount, .. } => {
                &&& next.spec_idle() == vault.spec_idle() + amount
                &&& next.rbf_fund_amount == vault.rbf_fund_amount - amount
                &&& next.dex_fund_amount == vault.dex_fund_amount
            },
        },
{
}

/// A subscription moves the same amount on both sides: out of the vault's
/// idle balance into its fund-deployed balance, and onto the fund's total
/// subscription. It is accepted only while the fund is running. A liquidation
/// does the reverse, onto the fund's total redemption, and is accepted only
/// while the fund is liquidating.
pub proof fn lemma_subscription_and_liquidation_agree(subscribe: RBFSubscription, liquidate: RBFLiquidation, amount: u64)
    ensures
        spec_rbf_subscription(subscribe, amount) matches Ok(post) ==> {
            &&& subscribe.rbf.data->Some_0.status == RBFStatus::Running
            &&& post.rbf.data->Some_0.total_subscription == subscribe.rbf.data->Some_0.total_subscription + amount
            &&& post.vault.rbf_fund_amount == subscribe.vault.rbf_fund_amount + amount
            &&& post.vault.spec_idle() == subscribe.vault.spec_idle() - amount
            &&& post.vault.wf()
        },
        spec_rbf_liquidation(liquidate, amount) matches Ok(post) ==> {
            &&& liquidate.rbf.data->Some_0.status == RBFStatus::Liquidating
            &&& post.rbf.data->Some_0.total_redemption == liquidate.rbf.data->Some_0.total_redemption + amount
            &&& post.vault.rbf_fund_amount == liquidate.vault.rbf_fund_amount - amount
            &&& post.vault.spec_idle() == liquidate.vault.spec_idle() + amount
            &&& post.vault.wf()
        },
        subscribe.rbf.data matches Some(fund) && fund.status == RBFStatus::Liquidating && subscribe.rbf.key
            == subscribe.vault.rbf ==> spec_rbf_subscription(subscribe, amount) == Err::<
            RBFSubscription,
            ErrorCode,
        >(ErrorCode::InvalidRBFStatus),
        ErrorCode::InvalidRBFStatus.spec_kind() == ErrorKind::State,
{
}

} // verus!
