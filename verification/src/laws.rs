//! Protocol-wide laws, proved once over the specification functions that
//! the instruction handlers' contracts are stated with.

use vstd::prelude::*;

use crate::catalog::TIER_COUNT;
use crate::errors::IncineratorError;
use crate::instructions::{
    spec_admin_ok, spec_burn_err, spec_burn_ok, spec_burn_update, spec_create_tier_config,
    spec_create_tier_err, spec_create_tier_ok, spec_mint_err, spec_mint_ok, spec_mint_update,
    spec_transfer_authority,
};
use crate::key::Key;
use crate::state::{registered_count, ConfigView, TierView};

verus! {

/// In a registry whose first `n` slots, and only those, are occupied, the
/// occupied-slot count is `n`.
proof fn lemma_registered_count_of_prefix(s: Seq<Key>, n: int)
    requires
        0 <= n <= s.len(),
        forall|i: int| 0 <= i < s.len() ==> ((i < n) <==> s[i] != Key::spec_empty()),
    ensures
        registered_count(s) == n,
    decreases s.len(),
{
    if s.len() > 0 {
        let s2 = s.drop_last();
        if n == s.len() {
            lemma_registered_count_of_prefix(s2, n - 1);
        } else {
            lemma_registered_count_of_prefix(s2, n);
        }
    }
}

/// The configuration invariant in its counting form: the number of tiers
/// created so far equals the number of registry slots holding a registered
/// asset identifier.
pub proof fn lemma_wf_registered_count(c: ConfigView)
    requires
        c.wf(),
    ensures
        registered_count(c.tier_mints) == c.tiers_initialized,
{
    lemma_registered_count_of_prefix(c.tier_mints, c.tiers_initialized);
}

/// A successful tier creation preserves the configuration invariant and
/// creates a well-formed ledger record state.
pub proof fn lemma_create_tier_preserves_invariant(
    c: ConfigView,
    caller: Key,
    tier_index: u8,
    mint: Key,
)
    requires
        c.wf(),
        mint != Key::spec_empty(),
        spec_create_tier_ok(c, caller, tier_index),
    ensures
        spec_create_tier_config(c, tier_index, mint).wf(),
{
}

/// A successful mint preserves the ledger-record invariant; in particular
/// the circulating supply stays within the tier's maximum.
pub proof fn lemma_mint_preserves_invariant(t: TierView, amount: u64)
    requires
        t.wf(),
        t.current_supply + amount <= t.max_supply,
    ensures
        spec_mint_update(t, amount).wf(),
        spec_mint_update(t, amount).current_supply == t.current_supply + amount,
{
}

/// Every burn preserves the ledger-record invariant, and the cumulative
/// burn counter never decreases.
pub proof fn lemma_burn_preserves_invariant(t: TierView, amount: u64)
    requires
        t.wf(),
    ensures
        spec_burn_update(t, amount).wf(),
        spec_burn_update(t, amount).total_burned >= t.total_burned,
{
}

/// Supply accounting: a burn that does not hit the saturation guard moves
/// exactly `amount` units from the circulating supply to the burn counter,
/// so `current_supply + total_burned` (all units ever minted) is unchanged.
pub proof fn lemma_burn_accounting(t: TierView, amount: u64)
    requires
        amount <= t.current_supply,
    ensures
        spec_burn_update(t, amount).current_supply + spec_burn_update(t, amount).total_burned == t
            .current_supply + t.total_burned,
        spec_burn_update(t, amount).current_supply == t.current_supply - amount,
{
}

/// An in-range tier creation out of strict ascending order is rejected
/// with `TierOutOfOrder`.  (That a rejection leaves all state unchanged is
/// part of `create_tier`'s own contract.)
pub proof fn lemma_create_tier_out_of_order(c: ConfigView, caller: Key, tier_index: u8)
    requires
        spec_admin_ok(c, caller),
        tier_index < TIER_COUNT,
        tier_index != c.tiers_initialized,
    ensures
        !spec_create_tier_ok(c, caller, tier_index),
        spec_create_tier_err(c, caller, tier_index) == IncineratorError::TierOutOfOrder,
{
}

/// A mint that would push the circulating supply above the tier's maximum
/// is rejected with `ExceedsMaxSupply`.  (That a rejection leaves the
/// supply unchanged is part of `mint_tier`'s own contract.)
pub proof fn lemma_mint_exceeds_max(
    c: ConfigView,
    t: TierView,
    caller: Key,
    tier_index: u8,
    asset: Key,
    amount: u64,
)
    requires
        spec_admin_ok(c, caller),
        tier_index < TIER_COUNT,
        asset == t.mint,
        t.current_supply + amount > t.max_supply,
    ensures
        !spec_mint_ok(c, t, caller, tier_index, asset, amount),
        spec_mint_err(c, t, caller, tier_index, asset) == IncineratorError::ExceedsMaxSupply,
{
}

/// With burns disabled, every in-range burn is rejected with
/// `BurnsDisabled`, regardless of the amount, the caller, or who owns the
/// source balance.
pub proof fn lemma_burn_disabled(
    c: ConfigView,
    t: TierView,
    caller: Key,
    tier_index: u8,
    asset: Key,
    source_owner: Key,
    amount: u64,
)
    requires
        tier_index < TIER_COUNT,
        !c.burns_enabled,
    ensures
        !spec_burn_ok(c, t, caller, tier_index, asset, source_owner, amount),
        spec_burn_err(c, t, caller, tier_index, asset, source_owner, amount)
            == IncineratorError::BurnsDisabled,
{
}

/// A burner who does not own the source balance is rejected with
/// `NotTokenOwner` (given that burns are enabled and the amount is
/// positive, the rejections that take precedence).
pub proof fn lemma_burn_not_owner(
    c: ConfigView,
    t: TierView,
    caller: Key,
    tier_index: u8,
    asset: Key,
    source_owner: Key,
    amount: u64,
)
    requires
        tier_index < TIER_COUNT,
        c.burns_enabled,
        amount > 0,
        source_owner != caller,
    ensures
        !spec_burn_ok(c, t, caller, tier_index, asset, source_owner, amount),
        spec_burn_err(c, t, caller, tier_index, asset, source_owner, amount)
            == IncineratorError::NotTokenOwner,
{
}

/// Only the configured authority passes the administrative gate; any other
/// caller is rejected with `Unauthorized` by every authority-gated
/// instruction, on all inputs.  (For `update_fee`, `toggle_burns`,
/// `update_treasury` and `transfer_authority` the same gate is stated
/// directly in each handler's contract through `spec_admin_ok`.)
pub proof fn lemma_only_authority(
    c: ConfigView,
    t: TierView,
    caller: Key,
    tier_index: u8,
    asset: Key,
    amount: u64,
)
    requires
        caller != c.authority,
    ensures
        !spec_admin_ok(c, caller),
        !spec_create_tier_ok(c, caller, tier_index),
        spec_create_tier_err(c, caller, tier_index) == IncineratorError::Unauthorized,
        !spec_mint_ok(c, t, caller, tier_index, asset, amount),
        spec_mint_err(c, t, caller, tier_index, asset) == IncineratorError::Unauthorized,
{
}

/// After an authority transfer, the old authority no longer passes the
/// administrative gate and the new authority does.
pub proof fn lemma_transfer_authority_gates(c: ConfigView, old_authority: Key, new_authority: Key)
    requires
        old_authority == c.authority,
        new_authority != old_authority,
    ensures
        spec_admin_ok(c, old_authority),
        !spec_admin_ok(spec_transfer_authority(c, new_authority), old_authority),
        spec_admin_ok(spec_transfer_authority(c, new_authority), new_authority),
{
}

} // verus!
