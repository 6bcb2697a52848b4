//! Tier/rank derivation: pure, total functions from a difficulty level (and
//! whether the claim was mined or witnessed) to a human-readable rank label.
//!
//! Policy (the canonical label table of this crate): mined levels
//! `15, 16..=17, 18, 19..=20, 21..` map to μScout, μForged, μLegend,
//! μMythic and μHonorius; every witness claim is labelled μOracle; anything
//! below the accepted range falls back to "Unknown".

use vstd::prelude::*;

use crate::game::Game;

verus! {

/// The label of a mined claim at the given level.
pub open spec fn mined_tier_spec(level: u8) -> Seq<char> {
    if level < 15 {
        "Unknown"@
    } else if level == 15 {
        "μScout"@
    } else if level <= 17 {
        "μForged"@
    } else if level == 18 {
        "μLegend"@
    } else if level <= 20 {
        "μMythic"@
    } else {
        "μHonorius"@
    }
}

/// The label of a claim: witnesses are labelled μOracle regardless of
/// level, mined claims by the level table.
pub open spec fn tier_label_spec(level: u8, is_witness: bool) -> Seq<char> {
    if is_witness {
        "μOracle"@
    } else {
        mined_tier_spec(level)
    }
}

/// The rank label of a claim at the given level.
pub fn tier_for_level(level: u8, is_witness: bool) -> (label: &'static str)
    ensures
        label@ == tier_label_spec(level, is_witness),
{
    if is_witness {
        "μOracle"
    } else if level < 15 {
        "Unknown"
    } else if level == 15 {
        "μScout"
    } else if level <= 17 {
        "μForged"
    } else if level == 18 {
        "μLegend"
    } else if level <= 20 {
        "μMythic"
    } else {
        "μHonorius"
    }
}

/// The rank label of a game state: the tier of the last accepted level, or
/// the fallback when nothing has been accepted yet.
pub open spec fn rank_label_spec(g: Game) -> Seq<char> {
    match g.last_level {
        Some(l) => mined_tier_spec(l),
        None => "Unknown"@,
    }
}

/// The rank label of a game state.
pub fn rank_label_of(g: &Game) -> (r: String)
    ensures
        r@ == rank_label_spec(*g),
{
    match g.last_level {
        Some(l) => tier_for_level(l, false).to_owned(),
        None => "Unknown".to_owned(),
    }
}

/// The canonical points and rank label of a claim: the tiered point table
/// (half-rate for witnesses) together with the level's label.
pub fn calculate_score_and_tier(mu_level: u8, is_witness: bool) -> (r: (u32, &'static str))
    ensures
        r.0 == (if is_witness {
            crate::game::witness_points_spec(mu_level)
        } else {
            crate::game::points_for_level_spec(mu_level)
        }),
        r.1@ == tier_label_spec(mu_level, is_witness),
{
    let points = if is_witness {
        crate::game::Game::points_for_level(mu_level) / 2
    } else {
        crate::game::Game::points_for_level(mu_level)
    };
    (points, tier_for_level(mu_level, is_witness))
}

} // verus!
