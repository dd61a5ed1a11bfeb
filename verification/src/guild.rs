//! Server boost levels and the voice bitrates they allow.

use vstd::prelude::*;
use crate::seqs::lemma_filter_push;

verus! {

/// A guild's server boost level.
#[derive(Debug, Clone, Copy, PartialEq, Eq)]
pub enum PremiumTier {
    Tier0,
    Tier1,
    Tier2,
    Tier3,
    Unknown(u8),
}

/// The highest voice bitrate a boost level allows, in bits per second.
pub open spec fn max_bitrate(tier: PremiumTier) -> u32 {
    match tier {
        PremiumTier::Tier3 => 384_000,
        PremiumTier::Tier2 => 256_000,
        PremiumTier::Tier1 => 128_000,
        _ => 96_000,
    }
}

/// How far a boost level goes: unknown levels count as no boost.
pub open spec fn tier_rank(tier: PremiumTier) -> nat {
    match tier {
        PremiumTier::Tier3 => 3,
        PremiumTier::Tier2 => 2,
        PremiumTier::Tier1 => 1,
        _ => 0,
    }
}

/// The bitrates the bot offers, in ascending order.
pub open spec fn bitrate_candidates() -> Seq<u32> {
    seq![8_000u32, 16_000, 32_000, 64_000, 96_000, 128_000, 256_000, 384_000]
}

/// The offered bitrates that a boost level allows, in the order they are offered.
pub open spec fn allowed_bitrates(tier: PremiumTier) -> Seq<u32> {
    bitrate_candidates().filter(within_max(tier))
}

/// Whether a bitrate is within what a boost level allows.
pub open spec fn within_max(tier: PremiumTier) -> spec_fn(u32) -> bool {
    |c: u32| c <= max_bitrate(tier)
}

/// The bitrates a member may pick for a voice channel in a guild of the given
/// boost level: every offered bitrate up to the level's maximum.
pub fn allowed_bitrates_for_premier_tier(premium_tier: PremiumTier) -> (r: Vec<u32>)
    ensures
        r@ == allowed_bitrates(premium_tier),
{
    let max: u32 = match premium_tier {
        PremiumTier::Tier3 => 384_000,
        PremiumTier::Tier2 => 256_000,
        PremiumTier::Tier1 => 128_000,
        _ => 96_000,
    };
    let candidates: [u32; 8] = [8_000, 16_000, 32_000, 64_000, 96_000, 128_000, 256_000, 384_000];
    assert(candidates@ =~= bitrate_candidates());
    let ghost pred = within_max(premium_tier);
    let mut r: Vec<u32> = Vec::new();
    let mut i: usize = 0;
    while i < 8
        invariant
            i <= 8,
            max == max_bitrate(premium_tier),
            candidates@ == bitrate_candidates(),
            pred == within_max(premium_tier),
            r@ == candidates@.subrange(0, i as int).filter(pred),
        decreases 8 - i,
    {
        let c = candidates[i];
        proof {
            lemma_filter_push(candidates@.subrange(0, i as int), pred, c);
            assert(candidates@.subrange(0, i + 1) =~= candidates@.subrange(0, i as int).push(c));
        }
        if c <= max {
            r.push(c);
        }
        i = i + 1;
    }
    assert(candidates@.subrange(0, 8) =~= candidates@);
    r
}

/// The allowed bitrates of each boost level, spelled out.
pub proof fn lemma_allowed_bitrates_values(tier: PremiumTier)
    ensures
        tier_rank(tier) == 0 ==> allowed_bitrates(tier) =~= seq![8_000u32, 16_000, 32_000, 64_000, 96_000],
        tier_rank(tier) == 1 ==> allowed_bitrates(tier) =~= seq![8_000u32, 16_000, 32_000, 64_000, 96_000, 128_000],
        tier_rank(tier) == 2 ==> allowed_bitrates(tier) =~= seq![8_000u32, 16_000, 32_000, 64_000, 96_000, 128_000, 256_000],
        tier_rank(tier) == 3 ==> allowed_bitrates(tier) =~= bitrate_candidates(),
{
    let c = bitrate_candidates();
    let pred = within_max(tier);
    let e = Seq::<u32>::empty();
    assert(e.filter(pred) =~= e) by {
        reveal(Seq::filter);
    }
    let s1 = e.push(8_000u32);
    let s2 = s1.push(16_000u32);
    let s3 = s2.push(32_000u32);
    let s4 = s3.push(64_000u32);
    let s5 = s4.push(96_000u32);
    let s6 = s5.push(128_000u32);
    let s7 = s6.push(256_000u32);
    let s8 = s7.push(384_000u32);
    assert(s8 =~= c);
    lemma_filter_push(e, pred, 8_000u32);
    lemma_filter_push(s1, pred, 16_000u32);
    lemma_filter_push(s2, pred, 32_000u32);
    lemma_filter_push(s3, pred, 64_000u32);
    lemma_filter_push(s4, pred, 96_000u32);
    lemma_filter_push(s5, pred, 128_000u32);
    lemma_filter_push(s6, pred, 256_000u32);
    lemma_filter_push(s7, pred, 384_000u32);
    assert(s5.filter(pred) =~= s5);
}

/// A higher boost level never takes a bitrate away: the bitrates a lower level
/// allows are the first ones that a higher level allows, in the same order.
pub proof fn lemma_allowed_bitrates_grow_with_tier(lower: PremiumTier, higher: PremiumTier)
    requires
        tier_rank(lower) <= tier_rank(higher),
    ensures
        allowed_bitrates(lower).len() <= allowed_bitrates(higher).len(),
        allowed_bitrates(lower) =~= allowed_bitrates(higher).subrange(
            0,
            allowed_bitrates(lower).len() as int,
        ),
{
    lemma_allowed_bitrates_values(lower);
    lemma_allowed_bitrates_values(higher);
}

/// Every boost level allows at least the bitrates up to 96 kbps; the allowed
/// bitrates rise strictly and none exceeds the level's maximum, which is itself allowed.
pub proof fn lemma_allowed_bitrates_shape(tier: PremiumTier)
    ensures
        allowed_bitrates(tier).len() >= 5,
        allowed_bitrates(tier).subrange(0, 5) =~= seq![8_000u32, 16_000, 32_000, 64_000, 96_000],
        forall|i: int, j: int|
            0 <= i < j < allowed_bitrates(tier).len() ==> allowed_bitrates(tier)[i]
                < allowed_bitrates(tier)[j],
        forall|i: int|
            0 <= i < allowed_bitrates(tier).len() ==> allowed_bitrates(tier)[i] <= max_bitrate(
                tier,
            ),
        allowed_bitrates(tier).last() == max_bitrate(tier),
{
    lemma_allowed_bitrates_values(tier);
}

/// The boost level used for the bitrate prompt: the cached guild's, else the one
/// Discord reports for the guild, else no boost when neither is at hand.
pub fn resolve_premium_tier(cached: Option<PremiumTier>, fetched: Option<PremiumTier>) -> (r:
    PremiumTier)
    ensures
        r == match cached {
            Some(t) => t,
            None => match fetched {
                Some(t) => t,
                None => PremiumTier::Tier0,
            },
        },
{
    match cached {
        Some(t) => t,
        None => match fetched {
            Some(t) => t,
            None => PremiumTier::Tier0,
        },
    }
}

} // verus!
