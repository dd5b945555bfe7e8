//! Seed strings of the Pump.fun and PumpSwap program-derived addresses.
use vstd::prelude::*;

verus! {

/// Seed `"global"` of the Pump.fun global account.
pub open spec fn spec_seed_global() -> Seq<u8> {
    seq![103u8, 108u8, 111u8, 98u8, 97u8, 108u8]
}

/// Seed `"global"` of the Pump.fun global account.
pub fn seed_global() -> (r: Vec<u8>)
    ensures
        r@ == spec_seed_global(),
{
    let v: Vec<u8> = vec![103u8, 108u8, 111u8, 98u8, 97u8, 108u8];
    assert(v@ =~= spec_seed_global());
    v
}

/// Seed `"bonding-curve"` of a mint's bonding curve.
pub open spec fn spec_seed_bonding_curve() -> Seq<u8> {
    seq![98u8, 111u8, 110u8, 100u8, 105u8, 110u8, 103u8, 45u8, 99u8, 117u8, 114u8, 118u8, 101u8]
}

/// Seed `"bonding-curve"` of a mint's bonding curve.
pub fn seed_bonding_curve() -> (r: Vec<u8>)
    ensures
        r@ == spec_seed_bonding_curve(),
{
    let v: Vec<u8> = vec![98u8, 111u8, 110u8, 100u8, 105u8, 110u8, 103u8, 45u8, 99u8, 117u8, 114u8, 118u8, 101u8];
    assert(v@ =~= spec_seed_bonding_curve());
    v
}

/// Seed `"creator-vault"` of a creator's vault on the bonding curve.
pub open spec fn spec_seed_creator_vault() -> Seq<u8> {
    seq![99u8, 114u8, 101u8, 97u8, 116u8, 111u8, 114u8, 45u8, 118u8, 97u8, 117u8, 108u8, 116u8]
}

/// Seed `"creator-vault"` of a creator's vault on the bonding curve.
pub fn seed_creator_vault() -> (r: Vec<u8>)
    ensures
        r@ == spec_seed_creator_vault(),
{
    let v: Vec<u8> = vec![99u8, 114u8, 101u8, 97u8, 116u8, 111u8, 114u8, 45u8, 118u8, 97u8, 117u8, 108u8, 116u8];
    assert(v@ =~= spec_seed_creator_vault());
    v
}

/// Seed `"__event_authority"` of a program's event authority.
pub open spec fn spec_seed_event_authority() -> Seq<u8> {
    seq![95u8, 95u8, 101u8, 118u8, 101u8, 110u8, 116u8, 95u8, 97u8, 117u8, 116u8, 104u8, 111u8, 114u8, 105u8, 116u8, 121u8]
}

/// Seed `"__event_authority"` of a program's event authority.
pub fn seed_event_authority() -> (r: Vec<u8>)
    ensures
        r@ == spec_seed_event_authority(),
{
    let v: Vec<u8> = vec![95u8, 95u8, 101u8, 118u8, 101u8, 110u8, 116u8, 95u8, 97u8, 117u8, 116u8, 104u8, 111u8, 114u8, 105u8, 116u8, 121u8];
    assert(v@ =~= spec_seed_event_authority());
    v
}

/// Seed `"global_volume_accumulator"` of the global volume accumulator.
pub open spec fn spec_seed_global_volume_accumulator() -> Seq<u8> {
    seq![103u8, 108u8, 111u8, 98u8, 97u8, 108u8, 95u8, 118u8, 111u8, 108u8, 117u8, 109u8, 101u8, 95u8, 97u8, 99u8, 99u8, 117u8, 109u8, 117u8, 108u8, 97u8, 116u8, 111u8, 114u8]
}

/// Seed `"global_volume_accumulator"` of the global volume accumulator.
pub fn seed_global_volume_accumulator() -> (r: Vec<u8>)
    ensures
        r@ == spec_seed_global_volume_accumulator(),
{
    let v: Vec<u8> = vec![103u8, 108u8, 111u8, 98u8, 97u8, 108u8, 95u8, 118u8, 111u8, 108u8, 117u8, 109u8, 101u8, 95u8, 97u8, 99u8, 99u8, 117u8, 109u8, 117u8, 108u8, 97u8, 116u8, 111u8, 114u8];
    assert(v@ =~= spec_seed_global_volume_accumulator());
    v
}

/// Seed `"user_volume_accumulator"` of a user's volume accumulator.
pub open spec fn spec_seed_user_volume_accumulator() -> Seq<u8> {
    seq![117u8, 115u8, 101u8, 114u8, 95u8, 118u8, 111u8, 108u8, 117u8, 109u8, 101u8, 95u8, 97u8, 99u8, 99u8, 117u8, 109u8, 117u8, 108u8, 97u8, 116u8, 111u8, 114u8]
}

/// Seed `"user_volume_accumulator"` of a user's volume accumulator.
pub fn seed_user_volume_accumulator() -> (r: Vec<u8>)
    ensures
        r@ == spec_seed_user_volume_accumulator(),
{
    let v: Vec<u8> = vec![117u8, 115u8, 101u8, 114u8, 95u8, 118u8, 111u8, 108u8, 117u8, 109u8, 101u8, 95u8, 97u8, 99u8, 99u8, 117u8, 109u8, 117u8, 108u8, 97u8, 116u8, 111u8, 114u8];
    assert(v@ =~= spec_seed_user_volume_accumulator());
    v
}

/// Seed `"fee_config"` of a program's fee config.
pub open spec fn spec_seed_fee_config() -> Seq<u8> {
    seq![102u8, 101u8, 101u8, 95u8, 99u8, 111u8, 110u8, 102u8, 105u8, 103u8]
}

/// Seed `"fee_config"` of a program's fee config.
pub fn seed_fee_config() -> (r: Vec<u8>)
    ensures
        r@ == spec_seed_fee_config(),
{
    let v: Vec<u8> = vec![102u8, 101u8, 101u8, 95u8, 99u8, 111u8, 110u8, 102u8, 105u8, 103u8];
    assert(v@ =~= spec_seed_fee_config());
    v
}

/// Seed `"global_config"` of the PumpSwap global config.
pub open spec fn spec_seed_global_config() -> Seq<u8> {
    seq![103u8, 108u8, 111u8, 98u8, 97u8, 108u8, 95u8, 99u8, 111u8, 110u8, 102u8, 105u8, 103u8]
}

/// Seed `"global_config"` of the PumpSwap global config.
pub fn seed_global_config() -> (r: Vec<u8>)
    ensures
        r@ == spec_seed_global_config(),
{
    let v: Vec<u8> = vec![103u8, 108u8, 111u8, 98u8, 97u8, 108u8, 95u8, 99u8, 111u8, 110u8, 102u8, 105u8, 103u8];
    assert(v@ =~= spec_seed_global_config());
    v
}

/// Seed `"pool-authority"` of a mint's canonical pool creator.
pub open spec fn spec_seed_pool_authority() -> Seq<u8> {
    seq![112u8, 111u8, 111u8, 108u8, 45u8, 97u8, 117u8, 116u8, 104u8, 111u8, 114u8, 105u8, 116u8, 121u8]
}

/// Seed `"pool-authority"` of a mint's canonical pool creator.
pub fn seed_pool_authority() -> (r: Vec<u8>)
    ensures
        r@ == spec_seed_pool_authority(),
{
    let v: Vec<u8> = vec![112u8, 111u8, 111u8, 108u8, 45u8, 97u8, 117u8, 116u8, 104u8, 111u8, 114u8, 105u8, 116u8, 121u8];
    assert(v@ =~= spec_seed_pool_authority());
    v
}

/// Seed `"pool"` of a PumpSwap pool.
pub open spec fn spec_seed_pool() -> Seq<u8> {
    seq![112u8, 111u8, 111u8, 108u8]
}

/// Seed `"pool"` of a PumpSwap pool.
pub fn seed_pool() -> (r: Vec<u8>)
    ensures
        r@ == spec_seed_pool(),
{
    let v: Vec<u8> = vec![112u8, 111u8, 111u8, 108u8];
    assert(v@ =~= spec_seed_pool());
    v
}

/// Seed `"creator_vault"` of a coin creator's PumpSwap vault authority.
pub open spec fn spec_seed_coin_creator_vault() -> Seq<u8> {
    seq![99u8, 114u8, 101u8, 97u8, 116u8, 111u8, 114u8, 95u8, 118u8, 97u8, 117u8, 108u8, 116u8]
}

/// Seed `"creator_vault"` of a coin creator's PumpSwap vault authority.
pub fn seed_coin_creator_vault() -> (r: Vec<u8>)
    ensures
        r@ == spec_seed_coin_creator_vault(),
{
    let v: Vec<u8> = vec![99u8, 114u8, 101u8, 97u8, 116u8, 111u8, 114u8, 95u8, 118u8, 97u8, 117u8, 108u8, 116u8];
    assert(v@ =~= spec_seed_coin_creator_vault());
    v
}

} // verus!
