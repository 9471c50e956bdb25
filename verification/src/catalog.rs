//! The fixed tier catalog: ten asset classes, each with a name, a symbol,
//! and a maximum supply in whole tokens.

use vstd::prelude::*;

verus! {

/// Number of tiers in the catalog.
pub const TIER_COUNT: u8 = 10;

/// Decimal places carried by every tier's asset.
pub const DECIMALS: u8 = 3;

/// Raw units per whole token: 10 to the power of [`DECIMALS`].
pub const RAW_PER_WHOLE: u64 = 1000;

/// Maximum length, in characters, accepted for a tier's metadata URI.
pub const MAX_URI_LEN: usize = 256;

/// The catalog's maximum supply for a tier, in whole tokens.
pub open spec fn spec_tier_max_whole(tier_index: int) -> u64 {
    if tier_index == 0 {
        33
    } else if tier_index == 1 {
        55
    } else if tier_index == 2 {
        88
    } else if tier_index == 3 {
        111
    } else if tier_index == 4 {
        222
    } else if tier_index == 5 {
        333
    } else if tier_index == 6 {
        444
    } else if tier_index == 7 {
        555
    } else if tier_index == 8 {
        888
    } else {
        4444
    }
}

/// The catalog's maximum supply for a tier, in raw units.
pub open spec fn spec_tier_max_raw(tier_index: int) -> int {
    spec_tier_max_whole(tier_index) * RAW_PER_WHOLE
}

/// Whole-token maximum supply for a catalog tier.
pub fn tier_max_whole(tier_index: u8) -> (r: u64)
    requires
        tier_index < TIER_COUNT,
    ensures
        r == spec_tier_max_whole(tier_index as int),
{
    match tier_index {
        0 => 33,
        1 => 55,
        2 => 88,
        3 => 111,
        4 => 222,
        5 => 333,
        6 => 444,
        7 => 555,
        8 => 888,
        _ => 4444,
    }
}

/// Raw-unit maximum supply for a catalog tier: the whole-token figure scaled
/// by [`RAW_PER_WHOLE`].
pub fn tier_max_raw(tier_index: u8) -> (r: u64)
    requires
        tier_index < TIER_COUNT,
    ensures
        r == spec_tier_max_raw(tier_index as int),
{
    let whole = tier_max_whole(tier_index);
    whole * RAW_PER_WHOLE
}

/// The catalog name of a tier.
pub open spec fn spec_tier_name(tier_index: int) -> Seq<char> {
    if tier_index == 0 {
        "INCINERATOR"@
    } else if tier_index == 1 {
        "APOCALYPSE"@
    } else if tier_index == 2 {
        "GODSLAYER"@
    } else if tier_index == 3 {
        "DISINTEGRATE"@
    } else if tier_index == 4 {
        "TERMINATE"@
    } else if tier_index == 5 {
        "ANNIHILATE"@
    } else if tier_index == 6 {
        "OVERWRITE"@
    } else if tier_index == 7 {
        "INFERNO"@
    } else if tier_index == 8 {
        "FLAME"@
    } else {
        "SPARK"@
    }
}

/// Catalog name of a tier.
pub fn tier_name(tier_index: u8) -> (r: &'static str)
    requires
        tier_index < TIER_COUNT,
    ensures
        r@ == spec_tier_name(tier_index as int),
{
    match tier_index {
        0 => "INCINERATOR",
        1 => "APOCALYPSE",
        2 => "GODSLAYER",
        3 => "DISINTEGRATE",
        4 => "TERMINATE",
        5 => "ANNIHILATE",
        6 => "OVERWRITE",
        7 => "INFERNO",
        8 => "FLAME",
        _ => "SPARK",
    }
}

/// The catalog symbol of a tier.
pub open spec fn spec_tier_symbol(tier_index: int) -> Seq<char> {
    if tier_index == 0 {
        "INCNR"@
    } else if tier_index == 1 {
        "APCLP"@
    } else if tier_index == 2 {
        "GODSLY"@
    } else if tier_index == 3 {
        "DSNTG"@
    } else if tier_index == 4 {
        "TRMNT"@
    } else if tier_index == 5 {
        "ANHLT"@
    } else if tier_index == 6 {
        "OVRWT"@
    } else if tier_index == 7 {
        "INFRN"@
    } else if tier_index == 8 {
        "FLAME"@
    } else {
        "SPARK"@
    }
}

/// Catalog symbol of a tier.
pub fn tier_symbol(tier_index: u8) -> (r: &'static str)
    requires
        tier_index < TIER_COUNT,
    ensures
        r@ == spec_tier_symbol(tier_index as int),
{
    match tier_index {
        0 => "INCNR",
        1 => "APCLP",
        2 => "GODSLY",
        3 => "DSNTG",
        4 => "TRMNT",
        5 => "ANHLT",
        6 => "OVRWT",
        7 => "INFRN",
        8 => "FLAME",
        _ => "SPARK",
    }
}

} // verus!
