//! Persistent protocol state: the configuration singleton and the per-tier
//! ledger records, with their mathematical views and invariants.

use vstd::prelude::*;

use crate::catalog::{spec_tier_max_raw, MAX_URI_LEN, TIER_COUNT};
use crate::key::Key;

verus! {

/// Mathematical view of [`ProtocolConfig`].
#[verifier::ext_equal]
pub ghost struct ConfigView {
    pub authority: Key,
    pub treasury: Key,
    pub transfer_fee_bps: u16,
    pub max_fee_bps: u16,
    pub burns_enabled: bool,
    pub tiers_initialized: int,
    pub tier_mints: Seq<Key>,
}

impl ConfigView {
    /// Configuration invariant: the registry has one slot per catalog tier,
    /// the count of created tiers is in range, and exactly the first
    /// `tiers_initialized` slots hold a registered (non-empty) asset
    /// identifier.
    pub open spec fn wf(self) -> bool {
        &&& self.tier_mints.len() == TIER_COUNT
        &&& 0 <= self.tiers_initialized <= TIER_COUNT
        &&& forall|i: int|
            0 <= i < TIER_COUNT ==> ((i < self.tiers_initialized) <==> self.tier_mints[i]
                != Key::spec_empty())
    }
}

/// How many slots of a registry hold a registered (non-empty) asset
/// identifier.
pub open spec fn registered_count(s: Seq<Key>) -> int
    decreases s.len(),
{
    if s.len() == 0 {
        0
    } else {
        registered_count(s.drop_last()) + if s.last() != Key::spec_empty() {
            1int
        } else {
            0int
        }
    }
}

/// The protocol configuration singleton.  Created once by `initialize`;
/// thereafter mutated only by the administrator-gated instruction handlers.
pub struct ProtocolConfig {
    /// Identity permitted to perform administrative operations.
    pub authority: Key,
    /// Identity designated to receive transfer-fee proceeds (informational
    /// to this core; fee collection is performed by the external token
    /// contract).
    pub treasury: Key,
    /// Current transfer-fee rate in basis points.
    pub transfer_fee_bps: u16,
    /// Ceiling transfer-fee rate in basis points.
    pub max_fee_bps: u16,
    /// Gate on the burn operation.
    pub burns_enabled: bool,
    /// Number of tiers created so far, 0 to 10.
    pub tiers_initialized: u8,
    /// Asset identifier registered per tier slot; the all-zero identity
    /// until the slot's tier is created.  Always exactly ten entries.
    pub tier_mints: Vec<Key>,
}

impl View for ProtocolConfig {
    type V = ConfigView;

    open spec fn view(&self) -> ConfigView {
        ConfigView {
            authority: self.authority,
            treasury: self.treasury,
            transfer_fee_bps: self.transfer_fee_bps,
            max_fee_bps: self.max_fee_bps,
            burns_enabled: self.burns_enabled,
            tiers_initialized: self.tiers_initialized as int,
            tier_mints: self.tier_mints@,
        }
    }
}

/// Mathematical view of [`TierInfo`].
#[verifier::ext_equal]
pub ghost struct TierView {
    pub tier_index: int,
    pub mint: Key,
    pub max_supply: int,
    pub current_supply: int,
    pub total_burned: int,
    pub uri: Seq<char>,
}

impl TierView {
    /// Ledger-record invariant: the index is a catalog index, the asset
    /// identifier is registered (non-empty), the cap is the catalog's raw
    /// maximum for that index, the circulating supply never exceeds the
    /// cap, and the stored URI respects the explicit length bound.
    pub open spec fn wf(self) -> bool {
        &&& 0 <= self.tier_index < TIER_COUNT
        &&& self.mint != Key::spec_empty()
        &&& self.max_supply == spec_tier_max_raw(self.tier_index)
        &&& 0 <= self.current_supply <= self.max_supply
        &&& 0 <= self.total_burned
        &&& self.uri.len() <= MAX_URI_LEN
    }
}

/// One tier's ledger record.  Created once per tier, in strictly ascending
/// index order; mutated only by `mint_tier` and `burn_tokens`.
pub struct TierInfo {
    /// Catalog index of this tier, 0 to 9.
    pub tier_index: u8,
    /// The external token contract's asset identifier for this tier.
    pub mint: Key,
    /// Maximum supply in raw units.
    pub max_supply: u64,
    /// Circulating supply in raw units.
    pub current_supply: u64,
    /// Cumulative raw units destroyed; never decreases.
    pub total_burned: u64,
    /// Off-chain metadata descriptor reference.
    pub uri: String,
}

impl View for TierInfo {
    type V = TierView;

    open spec fn view(&self) -> TierView {
        TierView {
            tier_index: self.tier_index as int,
            mint: self.mint,
            max_supply: self.max_supply as int,
            current_supply: self.current_supply as int,
            total_burned: self.total_burned as int,
            uri: self.uri@,
        }
    }
}

} // verus!
