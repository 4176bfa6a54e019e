//! The vault rebalancing circuit: split a vault balance between what is
//! deployed and what stays in reserve, according to the strategy's risk level.
use vstd::prelude::*;

verus! {

/// The vault's state as the rebalancing circuit sees it.
#[derive(Clone, Copy, Debug)]
pub struct RebalanceInput {
    pub current_vault_balance: u64,
    pub target_apy: u16,
    pub risk_level: u8,
}

/// How a vault balance is split.
#[derive(Clone, Copy, Debug)]
pub struct RebalanceOutput {
    pub amount_to_deploy: u64,
    pub reserved_for_withdrawals: u64,
}

/// Share deployed, in basis points: 50% at risk level 0, 75% at 1, 90% at 2,
/// nothing at any other level.
pub open spec fn deployment_bps_spec(risk_level: u8) -> u64 {
    if risk_level == 0 {
        5000
    } else if risk_level == 1 {
        7500
    } else if risk_level == 2 {
        9000
    } else {
        0
    }
}

/// A riskier strategy deploys more of the same balance, up to level 2, and an
/// unknown level deploys nothing; at most 90% is ever deployed, so a reserve of
/// at least a tenth always stays, and the middle level deploys three quarters.
pub proof fn lemma_deployment_grows_with_risk(balance: u64, low: u8, high: u8)
    requires
        low <= high <= 2,
    ensures
        balance * deployment_bps_spec(low) / 10_000 <= balance * deployment_bps_spec(high) / 10_000,
        deployment_bps_spec(low) <= deployment_bps_spec(high),
        deployment_bps_spec(0) * 2 == 10_000,
        deployment_bps_spec(1) * 4 == 3 * 10_000,
        deployment_bps_spec(2) * 10 == 9 * 10_000,
        forall|level: u8| level > 2 ==> deployment_bps_spec(level) == 0,
        forall|level: u8| deployment_bps_spec(level) <= 9_000,
{
    let a = deployment_bps_spec(low) as int;
    let b = deployment_bps_spec(high) as int;
    assert(balance * a <= balance * b) by (nonlinear_arith)
        requires
            a <= b,
    ;
    assert(balance * a / 10_000 <= balance * b / 10_000) by (nonlinear_arith)
        requires
            balance * a <= balance * b,
    ;
}

/// Split the vault balance between deployment and the withdrawal reserve.
pub fn compute_rebalance(input: RebalanceInput) -> (r: RebalanceOutput)
    ensures
        r.amount_to_deploy == input.current_vault_balance * deployment_bps_spec(input.risk_level) / 10_000,
        r.amount_to_deploy + r.reserved_for_withdrawals == input.current_vault_balance,
{
    let deployment_bps: u64 = match input.risk_level {
        0 => 5000,
        1 => 7500,
        2 => 9000,
        _ => 0,
    };
    let balance = input.current_vault_balance;
    let product: u128 = (balance as u128) * (deployment_bps as u128);
    proof {
        assert(balance * deployment_bps <= balance * 10_000) by (nonlinear_arith)
            requires
                deployment_bps <= 10_000,
        ;
        assert((balance * deployment_bps) / 10_000 <= (balance * 10_000) / 10_000) by (nonlinear_arith)
            requires
                balance * deployment_bps <= balance * 10_000,
        ;
        assert((balance * 10_000) / 10_000 == balance) by (nonlinear_arith);
    }
    let amount_to_deploy = (product / 10000) as u64;
    let reserved_for_withdrawals = balance - amount_to_deploy;
    RebalanceOutput { amount_to_deploy, reserved_for_withdrawals }
}

} // verus!
