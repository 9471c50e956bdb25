//! The instruction handlers: the protocol's single-step state machine.
//!
//! Every handler takes the persistent records it touches as explicit
//! parameters, together with the authenticated caller identity, validates
//! the instruction, and either mutates the records or returns the error and
//! leaves them untouched.  A handler whose instruction also moves balances
//! returns a [`TokenOp`] describing the delegated call the surrounding
//! runtime must make on the external token contract; validation always
//! completes before that call is handed out, so a rejected instruction
//! never touches external state.

use vstd::prelude::*;

use crate::catalog::{spec_tier_max_raw, tier_max_raw, MAX_URI_LEN, TIER_COUNT};
use crate::errors::IncineratorError;
use crate::key::Key;
use crate::state::{ConfigView, ProtocolConfig, TierInfo, TierView};

verus! {

/// A delegated call on the external token contract, to be performed by the
/// surrounding runtime after the handler that produced it returns.
#[derive(Clone, Copy, PartialEq, Eq, Structural, Debug)]
pub enum TokenOp {
    /// Increase `recipient`'s balance of `asset` by `amount` raw units,
    /// authorized by the protocol's own derived signing capability.
    MintTo { asset: Key, recipient: Key, amount: u64 },
    /// Destroy `amount` raw units of `asset` from the balance account
    /// `source`, authorized by its owner's signature.
    Burn { asset: Key, source: Key, owner: Key, amount: u64 },
}

/// Whether `caller` may perform administrator-gated operations under
/// configuration `c`.
pub open spec fn spec_admin_ok(c: ConfigView, caller: Key) -> bool {
    caller == c.authority
}

/// The configuration created by `initialize`.
pub open spec fn spec_initialize(
    caller: Key,
    treasury: Key,
    transfer_fee_bps: u16,
    max_fee_bps: u16,
) -> ConfigView {
    ConfigView {
        authority: caller,
        treasury: treasury,
        transfer_fee_bps: transfer_fee_bps,
        max_fee_bps: max_fee_bps,
        burns_enabled: true,
        tiers_initialized: 0,
        tier_mints: Seq::new(TIER_COUNT as nat, |i: int| Key::spec_empty()),
    }
}

/// Create the protocol configuration.  Callable once; the caller becomes
/// the authority, burns start enabled, and the tier registry starts empty.
/// (That the configuration record does not already exist is enforced by the
/// ledger runtime's storage layer, outside this core.)
pub fn initialize(
    caller: Key,
    treasury: Key,
    transfer_fee_bps: u16,
    max_fee_bps: u16,
) -> (config: ProtocolConfig)
    ensures
        config@ == spec_initialize(caller, treasury, transfer_fee_bps, max_fee_bps),
        config@.wf(),
{
    let mut tier_mints: Vec<Key> = Vec::new();
    let mut i: usize = 0;
    while i < TIER_COUNT as usize
        invariant
            i <= TIER_COUNT,
            tier_mints@.len() == i,
            forall|j: int| 0 <= j < i ==> tier_mints@[j] == Key::spec_empty(),
        decreases TIER_COUNT - i,
    {
        tier_mints.push(Key::empty());
        i = i + 1;
    }
    let config = ProtocolConfig {
        authority: caller,
        treasury,
        transfer_fee_bps,
        max_fee_bps,
        burns_enabled: true,
        tiers_initialized: 0,
        tier_mints,
    };
    proof {
        assert(config@ =~= spec_initialize(caller, treasury, transfer_fee_bps, max_fee_bps));
    }
    config
}

/// Whether `create_tier` succeeds: the caller is the authority and
/// `tier_index` is the next uncreated catalog slot.
pub open spec fn spec_create_tier_ok(c: ConfigView, caller: Key, tier_index: u8) -> bool {
    &&& spec_admin_ok(c, caller)
    &&& tier_index < TIER_COUNT
    &&& tier_index == c.tiers_initialized
}

/// The error `create_tier` reports when it fails.
pub open spec fn spec_create_tier_err(c: ConfigView, caller: Key, tier_index: u8) -> IncineratorError {
    if !spec_admin_ok(c, caller) {
        IncineratorError::Unauthorized
    } else if tier_index >= TIER_COUNT {
        IncineratorError::InvalidTier
    } else {
        IncineratorError::TierOutOfOrder
    }
}

/// The configuration after a successful `create_tier`: the asset identifier
/// is registered in the tier's slot and the creation count advances.
pub open spec fn spec_create_tier_config(c: ConfigView, tier_index: u8, mint: Key) -> ConfigView {
    ConfigView {
        tiers_initialized: c.tiers_initialized + 1,
        tier_mints: c.tier_mints.update(tier_index as int, mint),
        ..c
    }
}

/// The ledger record a successful `create_tier` creates: zero supply, zero
/// burns, and the catalog's raw maximum for the tier.
pub open spec fn spec_create_tier_record(tier_index: u8, mint: Key, uri: Seq<char>) -> TierView {
    TierView {
        tier_index: tier_index as int,
        mint: mint,
        max_supply: spec_tier_max_raw(tier_index as int),
        current_supply: 0,
        total_burned: 0,
        uri: uri,
    }
}

/// Create the next tier.  Tiers must be created in strictly ascending index
/// order by the authority; the tier's external asset must already exist and
/// is only registered here, never created by this core (hence the non-empty
/// identifier requirement).
pub fn create_tier(
    config: &mut ProtocolConfig,
    caller: Key,
    tier_index: u8,
    tier_mint: Key,
    uri: String,
) -> (r: Result<TierInfo, IncineratorError>)
    requires
        old(config)@.wf(),
        tier_mint != Key::spec_empty(),
        uri@.len() <= MAX_URI_LEN,
    ensures
        final(config)@.wf(),
        r is Ok <==> spec_create_tier_ok(old(config)@, caller, tier_index),
        r matches Ok(tier_info) ==> final(config)@ == spec_create_tier_config(
            old(config)@,
            tier_index,
            tier_mint,
        ) && tier_info@ == spec_create_tier_record(tier_index, tier_mint, uri@) && tier_info@.wf(),
        r matches Err(e) ==> final(config)@ == old(config)@ && e == spec_create_tier_err(
            old(config)@,
            caller,
            tier_index,
        ),
{
    if caller != config.authority {
        return Err(IncineratorError::Unauthorized);
    }
    if tier_index >= TIER_COUNT {
        return Err(IncineratorError::InvalidTier);
    }
    if tier_index != config.tiers_initialized {
        return Err(IncineratorError::TierOutOfOrder);
    }
    let max_supply = tier_max_raw(tier_index);
    let tier_info = TierInfo {
        tier_index,
        mint: tier_mint,
        max_supply,
        current_supply: 0,
        total_burned: 0,
        uri,
    };
    config.tier_mints[tier_index as usize] = tier_mint;
    config.tiers_initialized = config.tiers_initialized + 1;
    proof {
        assert(config@ =~= spec_create_tier_config(old(config)@, tier_index, tier_mint));
    }
    Ok(tier_info)
}

/// Whether `mint_tier` succeeds: the caller is the authority, the index is
/// a catalog index, the supplied asset is the tier's registered asset, and
/// the minted amount keeps the circulating supply within the tier's cap.
pub open spec fn spec_mint_ok(
    c: ConfigView,
    t: TierView,
    caller: Key,
    tier_index: u8,
    asset: Key,
    amount: u64,
) -> bool {
    &&& spec_admin_ok(c, caller)
    &&& tier_index < TIER_COUNT
    &&& asset == t.mint
    &&& t.current_supply + amount <= t.max_supply
}

/// The error `mint_tier` reports when it fails.
pub open spec fn spec_mint_err(
    c: ConfigView,
    t: TierView,
    caller: Key,
    tier_index: u8,
    asset: Key,
) -> IncineratorError {
    if !spec_admin_ok(c, caller) {
        IncineratorError::Unauthorized
    } else if tier_index >= TIER_COUNT {
        IncineratorError::InvalidTier
    } else if asset != t.mint {
        IncineratorError::MintMismatch
    } else {
        IncineratorError::ExceedsMaxSupply
    }
}

/// The ledger record after a successful mint of `amount` raw units.
pub open spec fn spec_mint_update(t: TierView, amount: u64) -> TierView {
    TierView { current_supply: t.current_supply + amount, ..t }
}

/// Mint `amount` raw units of a tier to `recipient`.  Authority-gated and
/// supply-capped; on success the returned [`TokenOp::MintTo`] is the
/// delegated call the runtime must perform, signed by the protocol's own
/// derived capability.  `tier_info` is the ledger record the runtime
/// resolved for `tier_index` by derived addressing.
pub fn mint_tier(
    config: &ProtocolConfig,
    tier_info: &mut TierInfo,
    caller: Key,
    tier_index: u8,
    asset: Key,
    recipient: Key,
    amount: u64,
) -> (r: Result<TokenOp, IncineratorError>)
    requires
        config@.wf(),
        old(tier_info)@.wf(),
    ensures
        final(tier_info)@.wf(),
        r is Ok <==> spec_mint_ok(config@, old(tier_info)@, caller, tier_index, asset, amount),
        r matches Ok(op) ==> final(tier_info)@ == spec_mint_update(old(tier_info)@, amount) && op
            == (TokenOp::MintTo { asset, recipient, amount }),
        r matches Err(e) ==> final(tier_info)@ == old(tier_info)@ && e == spec_mint_err(
            config@,
            old(tier_info)@,
            caller,
            tier_index,
            asset,
        ),
{
    if caller != config.authority {
        return Err(IncineratorError::Unauthorized);
    }
    if tier_index >= TIER_COUNT {
        return Err(IncineratorError::InvalidTier);
    }
    if asset != tier_info.mint {
        return Err(IncineratorError::MintMismatch);
    }
    if amount > tier_info.max_supply - tier_info.current_supply {
        return Err(IncineratorError::ExceedsMaxSupply);
    }
    tier_info.current_supply = tier_info.current_supply + amount;
    Ok(TokenOp::MintTo { asset, recipient, amount })
}

/// Whether `burn_tokens` succeeds: the index is a catalog index, burns are
/// enabled, the amount is positive, the caller owns the source balance, and
/// the supplied asset is the tier's registered asset.
pub open spec fn spec_burn_ok(
    c: ConfigView,
    t: TierView,
    caller: Key,
    tier_index: u8,
    asset: Key,
    source_owner: Key,
    amount: u64,
) -> bool {
    &&& tier_index < TIER_COUNT
    &&& c.burns_enabled
    &&& amount > 0
    &&& source_owner == caller
    &&& asset == t.mint
}

/// The error `burn_tokens` reports when it fails.
pub open spec fn spec_burn_err(
    c: ConfigView,
    t: TierView,
    caller: Key,
    tier_index: u8,
    asset: Key,
    source_owner: Key,
    amount: u64,
) -> IncineratorError {
    if tier_index >= TIER_COUNT {
        IncineratorError::InvalidTier
    } else if !c.burns_enabled {
        IncineratorError::BurnsDisabled
    } else if amount == 0 {
        IncineratorError::ZeroAmount
    } else if source_owner != caller {
        IncineratorError::NotTokenOwner
    } else {
        IncineratorError::MintMismatch
    }
}

/// The ledger record after a successful burn of `amount` raw units: the
/// circulating supply shrinks by `amount` (saturating at zero, a defensive
/// guard kept even though the runtime's per-record serialization makes the
/// underflow unreachable) and the cumulative burn counter grows by
/// `amount`.
pub open spec fn spec_burn_update(t: TierView, amount: u64) -> TierView {
    TierView {
        current_supply: if amount <= t.current_supply {
            t.current_supply - amount
        } else {
            0
        },
        total_burned: t.total_burned + amount,
        ..t
    }
}

/// Burn `amount` raw units of a tier from the caller's own balance.
/// Self-service (no authority gate), but gated on the configuration's burn
/// switch.  On success the returned [`TokenOp::Burn`] is the delegated call
/// the runtime must perform, signed by the caller.  `source` is the balance
/// account burned from and `source_owner` its owner as the token contract
/// records it; `tier_info` is the ledger record the runtime resolved for
/// `tier_index`.
pub fn burn_tokens(
    config: &ProtocolConfig,
    tier_info: &mut TierInfo,
    caller: Key,
    tier_index: u8,
    asset: Key,
    source: Key,
    source_owner: Key,
    amount: u64,
) -> (r: Result<TokenOp, IncineratorError>)
    requires
        config@.wf(),
        old(tier_info)@.wf(),
        old(tier_info)@.total_burned + amount <= u64::MAX,
    ensures
        final(tier_info)@.wf(),
        r is Ok <==> spec_burn_ok(
            config@,
            old(tier_info)@,
            caller,
            tier_index,
            asset,
            source_owner,
            amount,
        ),
        r matches Ok(op) ==> final(tier_info)@ == spec_burn_update(old(tier_info)@, amount) && op
            == (TokenOp::Burn { asset, source, owner: caller, amount }),
        r matches Err(e) ==> final(tier_info)@ == old(tier_info)@ && e == spec_burn_err(
            config@,
            old(tier_info)@,
            caller,
            tier_index,
            asset,
            source_owner,
            amount,
        ),
        final(tier_info)@.total_burned >= old(tier_info)@.total_burned,
{
    if tier_index >= TIER_COUNT {
        return Err(IncineratorError::InvalidTier);
    }
    if !config.burns_enabled {
        return Err(IncineratorError::BurnsDisabled);
    }
    if amount == 0 {
        return Err(IncineratorError::ZeroAmount);
    }
    if source_owner != caller {
        return Err(IncineratorError::NotTokenOwner);
    }
    if asset != tier_info.mint {
        return Err(IncineratorError::MintMismatch);
    }
    tier_info.current_supply = tier_info.current_supply.saturating_sub(amount);
    tier_info.total_burned = tier_info.total_burned + amount;
    Ok(TokenOp::Burn { asset, source, owner: caller, amount })
}

/// The configuration after `update_fee`.
pub open spec fn spec_update_fee(c: ConfigView, new_fee_bps: u16, new_max_fee_bps: u16) -> ConfigView {
    ConfigView { transfer_fee_bps: new_fee_bps, max_fee_bps: new_max_fee_bps, ..c }
}

/// Update the transfer-fee rate and its ceiling.  Authority only.
pub fn update_fee(
    config: &mut ProtocolConfig,
    caller: Key,
    new_fee_bps: u16,
    new_max_fee_bps: u16,
) -> (r: Result<(), IncineratorError>)
    requires
        old(config)@.wf(),
    ensures
        final(config)@.wf(),
        r is Ok <==> spec_admin_ok(old(config)@, caller),
        r is Ok ==> final(config)@ == spec_update_fee(old(config)@, new_fee_bps, new_max_fee_bps),
        r is Err ==> final(config)@ == old(config)@ && r == Err::<(), IncineratorError>(
            IncineratorError::Unauthorized,
        ),
{
    if caller != config.authority {
        return Err(IncineratorError::Unauthorized);
    }
    config.transfer_fee_bps = new_fee_bps;
    config.max_fee_bps = new_max_fee_bps;
    Ok(())
}

/// The configuration after `toggle_burns`.
pub open spec fn spec_toggle_burns(c: ConfigView, enabled: bool) -> ConfigView {
    ConfigView { burns_enabled: enabled, ..c }
}

/// Switch burning on or off.  Authority only.
pub fn toggle_burns(config: &mut ProtocolConfig, caller: Key, enabled: bool) -> (r: Result<
    (),
    IncineratorError,
>)
    requires
        old(config)@.wf(),
    ensures
        final(config)@.wf(),
        r is Ok <==> spec_admin_ok(old(config)@, caller),
        r is Ok ==> final(config)@ == spec_toggle_burns(old(config)@, enabled),
        r is Err ==> final(config)@ == old(config)@ && r == Err::<(), IncineratorError>(
            IncineratorError::Unauthorized,
        ),
{
    if caller != config.authority {
        return Err(IncineratorError::Unauthorized);
    }
    config.burns_enabled = enabled;
    Ok(())
}

/// The configuration after `update_treasury`.
pub open spec fn spec_update_treasury(c: ConfigView, new_treasury: Key) -> ConfigView {
    ConfigView { treasury: new_treasury, ..c }
}

/// Rotate the treasury identity.  Authority only.
pub fn update_treasury(config: &mut ProtocolConfig, caller: Key, new_treasury: Key) -> (r: Result<
    (),
    IncineratorError,
>)
    requires
        old(config)@.wf(),
    ensures
        final(config)@.wf(),
        r is Ok <==> spec_admin_ok(old(config)@, caller),
        r is Ok ==> final(config)@ == spec_update_treasury(old(config)@, new_treasury),
        r is Err ==> final(config)@ == old(config)@ && r == Err::<(), IncineratorError>(
            IncineratorError::Unauthorized,
        ),
{
    if caller != config.authority {
        return Err(IncineratorError::Unauthorized);
    }
    config.treasury = new_treasury;
    Ok(())
}

/// The configuration after `transfer_authority`.
pub open spec fn spec_transfer_authority(c: ConfigView, new_authority: Key) -> ConfigView {
    ConfigView { authority: new_authority, ..c }
}

/// Hand the administrator role to a new identity.  Authority only; from the
/// next instruction on, only the new identity passes the admin gate.
pub fn transfer_authority(config: &mut ProtocolConfig, caller: Key, new_authority: Key) -> (r:
    Result<(), IncineratorError>)
    requires
        old(config)@.wf(),
    ensures
        final(config)@.wf(),
        r is Ok <==> spec_admin_ok(old(config)@, caller),
        r is Ok ==> final(config)@ == spec_transfer_authority(old(config)@, new_authority),
        r is Err ==> final(config)@ == old(config)@ && r == Err::<(), IncineratorError>(
            IncineratorError::Unauthorized,
        ),
{
    if caller != config.authority {
        return Err(IncineratorError::Unauthorized);
    }
    config.authority = new_authority;
    Ok(())
}

} // verus!
