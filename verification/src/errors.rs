//! The protocol's failure conditions.

use vstd::prelude::*;

verus! {

/// Every way an instruction can be rejected.  Each validation failure is
/// detected before any delegated call to the external token contract, so a
/// rejected instruction leaves all protocol state unchanged.
#[derive(Clone, Copy, PartialEq, Eq, Structural, Debug)]
pub enum IncineratorError {
    /// The caller is not the protocol authority.
    Unauthorized,
    /// The tier index is outside 0..=9.
    InvalidTier,
    /// Tiers must be created in ascending order with no gaps.
    TierOutOfOrder,
    /// Minting the requested amount would push the circulating supply above
    /// the tier's fixed maximum.
    ExceedsMaxSupply,
    /// The supplied asset identifier does not match the tier's registered
    /// asset.
    MintMismatch,
    /// Burns are currently switched off.
    BurnsDisabled,
    /// The amount must be greater than zero.
    ZeroAmount,
    /// The caller does not own the token balance being burned.
    NotTokenOwner,
}

} // verus!
