//! Distance between the format information words: the property that lets a
//! reader correct errors in them.

use vstd::prelude::*;
use crate::hardcode::format_of;
use crate::vecl::ECL;

verus! {

/// Level indicator of the format information: L is `01`, M `00`, Q `11`, H `10`.
pub open spec fn level_bits(quality: ECL) -> u16 {
    match quality {
        ECL::L => 1,
        ECL::M => 0,
        ECL::Q => 3,
        ECL::H => 2,
    }
}

/// Once unmasked with `0x5412`, the five high bits of a format information
/// word are the level indicator followed by the three bits of the mask number.
pub proof fn lemma_format_fields(quality: ECL, mask_nb: int)
    requires
        0 <= mask_nb < 8,
    ensures
        ((format_of(quality, mask_nb) ^ 0x5412) >> 10) as int == level_bits(quality) as int * 8
            + mask_nb,
{
    match quality {
        ECL::L => {
            assert({
                &&& (0x77C4u16 ^ 0x5412u16) >> 10u16 == 8u16 && (0x72F3u16 ^ 0x5412u16) >> 10u16 == 9u16
                &&& (0x7DAAu16 ^ 0x5412u16) >> 10u16 == 10u16 && (0x789Du16 ^ 0x5412u16) >> 10u16 == 11u16
                &&& (0x662Fu16 ^ 0x5412u16) >> 10u16 == 12u16 && (0x6318u16 ^ 0x5412u16) >> 10u16 == 13u16
                &&& (0x6C41u16 ^ 0x5412u16) >> 10u16 == 14u16 && (0x6976u16 ^ 0x5412u16) >> 10u16 == 15u16
            }) by (bit_vector);
        }
        ECL::M => {
            assert({
                &&& (0x5412u16 ^ 0x5412u16) >> 10u16 == 0u16 && (0x5125u16 ^ 0x5412u16) >> 10u16 == 1u16
                &&& (0x5E7Cu16 ^ 0x5412u16) >> 10u16 == 2u16 && (0x5B4Bu16 ^ 0x5412u16) >> 10u16 == 3u16
                &&& (0x45F9u16 ^ 0x5412u16) >> 10u16 == 4u16 && (0x40CEu16 ^ 0x5412u16) >> 10u16 == 5u16
                &&& (0x4F97u16 ^ 0x5412u16) >> 10u16 == 6u16 && (0x4AA0u16 ^ 0x5412u16) >> 10u16 == 7u16
            }) by (bit_vector);
        }
        ECL::Q => {
            assert({
                &&& (0x355Fu16 ^ 0x5412u16) >> 10u16 == 24u16 && (0x3068u16 ^ 0x5412u16) >> 10u16 == 25u16
                &&& (0x3F31u16 ^ 0x5412u16) >> 10u16 == 26u16 && (0x3A06u16 ^ 0x5412u16) >> 10u16 == 27u16
                &&& (0x24B4u16 ^ 0x5412u16) >> 10u16 == 28u16 && (0x2183u16 ^ 0x5412u16) >> 10u16 == 29u16
                &&& (0x2EDAu16 ^ 0x5412u16) >> 10u16 == 30u16 && (0x2BEDu16 ^ 0x5412u16) >> 10u16 == 31u16
            }) by (bit_vector);
        }
        ECL::H => {
            assert({
                &&& (0x1689u16 ^ 0x5412u16) >> 10u16 == 16u16 && (0x13BEu16 ^ 0x5412u16) >> 10u16 == 17u16
                &&& (0x1CE7u16 ^ 0x5412u16) >> 10u16 == 18u16 && (0x19D0u16 ^ 0x5412u16) >> 10u16 == 19u16
                &&& (0x0762u16 ^ 0x5412u16) >> 10u16 == 20u16 && (0x0255u16 ^ 0x5412u16) >> 10u16 == 21u16
                &&& (0x0D0Cu16 ^ 0x5412u16) >> 10u16 == 22u16 && (0x083Bu16 ^ 0x5412u16) >> 10u16 == 23u16
            }) by (bit_vector);
        }
    }
    assert(mask_nb == 0 || mask_nb == 1 || mask_nb == 2 || mask_nb == 3 || mask_nb == 4 || mask_nb
        == 5 || mask_nb == 6 || mask_nb == 7);
}

/// Number of ones among the 15 low bits of `x`.
pub open spec fn weight(x: u16) -> u16 {
    ((x & 1) + ((x >> 1) & 1) + ((x >> 2) & 1) + ((x >> 3) & 1) + ((x >> 4) & 1) + ((x >> 5) & 1)
        + ((x >> 6) & 1) + ((x >> 7) & 1) + ((x >> 8) & 1) + ((x >> 9) & 1) + ((x >> 10) & 1) + ((x
        >> 11) & 1) + ((x >> 12) & 1) + ((x >> 13) & 1) + ((x >> 14) & 1)) as u16
}

/// Any two format information words of different (level, mask) pairs differ
/// in at least 7 of their 15 bits, so that a reader corrects up to three bit
/// errors in either copy of the word.
pub proof fn lemma_format_distance(q1: ECL, m1: int, q2: ECL, m2: int)
    requires
        0 <= m1 < 8,
        0 <= m2 < 8,
        q1 != q2 || m1 != m2,
    ensures
        weight(format_of(q1, m1) ^ format_of(q2, m2)) >= 7,
{
    match (q1, q2) {
        (ECL::L, ECL::L) => lemma_format_distance_ll(m1, m2),
        (ECL::L, ECL::M) => lemma_format_distance_lm(m1, m2),
        (ECL::L, ECL::Q) => lemma_format_distance_lq(m1, m2),
        (ECL::L, ECL::H) => lemma_format_distance_lh(m1, m2),
        (ECL::M, ECL::L) => lemma_format_distance_ml(m1, m2),
        (ECL::M, ECL::M) => lemma_format_distance_mm(m1, m2),
        (ECL::M, ECL::Q) => lemma_format_distance_mq(m1, m2),
        (ECL::M, ECL::H) => lemma_format_distance_mh(m1, m2),
        (ECL::Q, ECL::L) => lemma_format_distance_ql(m1, m2),
        (ECL::Q, ECL::M) => lemma_format_distance_qm(m1, m2),
        (ECL::Q, ECL::Q) => lemma_format_distance_qq(m1, m2),
        (ECL::Q, ECL::H) => lemma_format_distance_qh(m1, m2),
        (ECL::H, ECL::L) => lemma_format_distance_hl(m1, m2),
        (ECL::H, ECL::M) => lemma_format_distance_hm(m1, m2),
        (ECL::H, ECL::Q) => lemma_format_distance_hq(m1, m2),
        (ECL::H, ECL::H) => lemma_format_distance_hh(m1, m2),
    }
}

/// Words of levels L and L are at least seven bits apart.
proof fn lemma_format_distance_ll(m1: int, m2: int)
    requires
        0 <= m1 < 8,
        0 <= m2 < 8,
        m1 != m2,
    ensures
        weight(format_of(ECL::L, m1) ^ format_of(ECL::L, m2)) >= 7,
{
    assert({
        &&& weight(0x77C4u16 ^ 0x72F3u16) >= 7 && weight(0x77C4u16 ^ 0x7DAAu16) >= 7
        &&& weight(0x77C4u16 ^ 0x789Du16) >= 7 && weight(0x77C4u16 ^ 0x662Fu16) >= 7
        &&& weight(0x77C4u16 ^ 0x6318u16) >= 7 && weight(0x77C4u16 ^ 0x6C41u16) >= 7
        &&& weight(0x77C4u16 ^ 0x6976u16) >= 7 && weight(0x72F3u16 ^ 0x77C4u16) >= 7
        &&& weight(0x72F3u16 ^ 0x7DAAu16) >= 7 && weight(0x72F3u16 ^ 0x789Du16) >= 7
        &&& weight(0x72F3u16 ^ 0x662Fu16) >= 7 && weight(0x72F3u16 ^ 0x6318u16) >= 7
        &&& weight(0x72F3u16 ^ 0x6C41u16) >= 7 && weight(0x72F3u16 ^ 0x6976u16) >= 7
        &&& weight(0x7DAAu16 ^ 0x77C4u16) >= 7 && weight(0x7DAAu16 ^ 0x72F3u16) >= 7
        &&& weight(0x7DAAu16 ^ 0x789Du16) >= 7 && weight(0x7DAAu16 ^ 0x662Fu16) >= 7
        &&& weight(0x7DAAu16 ^ 0x6318u16) >= 7 && weight(0x7DAAu16 ^ 0x6C41u16) >= 7
        &&& weight(0x7DAAu16 ^ 0x6976u16) >= 7 && weight(0x789Du16 ^ 0x77C4u16) >= 7
        &&& weight(0x789Du16 ^ 0x72F3u16) >= 7 && weight(0x789Du16 ^ 0x7DAAu16) >= 7
        &&& weight(0x789Du16 ^ 0x662Fu16) >= 7 && weight(0x789Du16 ^ 0x6318u16) >= 7
        &&& weight(0x789Du16 ^ 0x6C41u16) >= 7 && weight(0x789Du16 ^ 0x6976u16) >= 7
        &&& weight(0x662Fu16 ^ 0x77C4u16) >= 7 && weight(0x662Fu16 ^ 0x72F3u16) >= 7
        &&& weight(0x662Fu16 ^ 0x7DAAu16) >= 7 && weight(0x662Fu16 ^ 0x789Du16) >= 7
        &&& weight(0x662Fu16 ^ 0x6318u16) >= 7 && weight(0x662Fu16 ^ 0x6C41u16) >= 7
        &&& weight(0x662Fu16 ^ 0x6976u16) >= 7 && weight(0x6318u16 ^ 0x77C4u16) >= 7
        &&& weight(0x6318u16 ^ 0x72F3u16) >= 7 && weight(0x6318u16 ^ 0x7DAAu16) >= 7
        &&& weight(0x6318u16 ^ 0x789Du16) >= 7 && weight(0x6318u16 ^ 0x662Fu16) >= 7
        &&& weight(0x6318u16 ^ 0x6C41u16) >= 7 && weight(0x6318u16 ^ 0x6976u16) >= 7
        &&& weight(0x6C41u16 ^ 0x77C4u16) >= 7 && weight(0x6C41u16 ^ 0x72F3u16) >= 7
        &&& weight(0x6C41u16 ^ 0x7DAAu16) >= 7 && weight(0x6C41u16 ^ 0x789Du16) >= 7
        &&& weight(0x6C41u16 ^ 0x662Fu16) >= 7 && weight(0x6C41u16 ^ 0x6318u16) >= 7
        &&& weight(0x6C41u16 ^ 0x6976u16) >= 7 && weight(0x6976u16 ^ 0x77C4u16) >= 7
        &&& weight(0x6976u16 ^ 0x72F3u16) >= 7 && weight(0x6976u16 ^ 0x7DAAu16) >= 7
        &&& weight(0x6976u16 ^ 0x789Du16) >= 7 && weight(0x6976u16 ^ 0x662Fu16) >= 7
        &&& weight(0x6976u16 ^ 0x6318u16) >= 7 && weight(0x6976u16 ^ 0x6C41u16) >= 7
    }) by (bit_vector);
    assert(m1 == 0 || m1 == 1 || m1 == 2 || m1 == 3 || m1 == 4 || m1 == 5 || m1 == 6 || m1 == 7);
    assert(m2 == 0 || m2 == 1 || m2 == 2 || m2 == 3 || m2 == 4 || m2 == 5 || m2 == 6 || m2 == 7);
}

/// Words of levels L and M are at least seven bits apart.
proof fn lemma_format_distance_lm(m1: int, m2: int)
    requires
        0 <= m1 < 8,
        0 <= m2 < 8,
    ensures
        weight(format_of(ECL::L, m1) ^ format_of(ECL::M, m2)) >= 7,
{
    assert({
        &&& weight(0x77C4u16 ^ 0x5412u16) >= 7 && weight(0x77C4u16 ^ 0x5125u16) >= 7
        &&& weight(0x77C4u16 ^ 0x5E7Cu16) >= 7 && weight(0x77C4u16 ^ 0x5B4Bu16) >= 7
        &&& weight(0x77C4u16 ^ 0x45F9u16) >= 7 && weight(0x77C4u16 ^ 0x40CEu16) >= 7
        &&& weight(0x77C4u16 ^ 0x4F97u16) >= 7 && weight(0x77C4u16 ^ 0x4AA0u16) >= 7
        &&& weight(0x72F3u16 ^ 0x5412u16) >= 7 && weight(0x72F3u16 ^ 0x5125u16) >= 7
        &&& weight(0x72F3u16 ^ 0x5E7Cu16) >= 7 && weight(0x72F3u16 ^ 0x5B4Bu16) >= 7
        &&& weight(0x72F3u16 ^ 0x45F9u16) >= 7 && weight(0x72F3u16 ^ 0x40CEu16) >= 7
        &&& weight(0x72F3u16 ^ 0x4F97u16) >= 7 && weight(0x72F3u16 ^ 0x4AA0u16) >= 7
        &&& weight(0x7DAAu16 ^ 0x5412u16) >= 7 && weight(0x7DAAu16 ^ 0x5125u16) >= 7
        &&& weight(0x7DAAu16 ^ 0x5E7Cu16) >= 7 && weight(0x7DAAu16 ^ 0x5B4Bu16) >= 7
        &&& weight(0x7DAAu16 ^ 0x45F9u16) >= 7 && weight(0x7DAAu16 ^ 0x40CEu16) >= 7
        &&& weight(0x7DAAu16 ^ 0x4F97u16) >= 7 && weight(0x7DAAu16 ^ 0x4AA0u16) >= 7
        &&& weight(0x789Du16 ^ 0x5412u16) >= 7 && weight(0x789Du16 ^ 0x5125u16) >= 7
        &&& weight(0x789Du16 ^ 0x5E7Cu16) >= 7 && weight(0x789Du16 ^ 0x5B4Bu16) >= 7
        &&& weight(0x789Du16 ^ 0x45F9u16) >= 7 && weight(0x789Du16 ^ 0x40CEu16) >= 7
        &&& weight(0x789Du16 ^ 0x4F97u16) >= 7 && weight(0x789Du16 ^ 0x4AA0u16) >= 7
        &&& weight(0x662Fu16 ^ 0x5412u16) >= 7 && weight(0x662Fu16 ^ 0x5125u16) >= 7
        &&& weight(0x662Fu16 ^ 0x5E7Cu16) >= 7 && weight(0x662Fu16 ^ 0x5B4Bu16) >= 7
        &&& weight(0x662Fu16 ^ 0x45F9u16) >= 7 && weight(0x662Fu16 ^ 0x40CEu16) >= 7
        &&& weight(0x662Fu16 ^ 0x4F97u16) >= 7 && weight(0x662Fu16 ^ 0x4AA0u16) >= 7
        &&& weight(0x6318u16 ^ 0x5412u16) >= 7 && weight(0x6318u16 ^ 0x5125u16) >= 7
        &&& weight(0x6318u16 ^ 0x5E7Cu16) >= 7 && weight(0x6318u16 ^ 0x5B4Bu16) >= 7
        &&& weight(0x6318u16 ^ 0x45F9u16) >= 7 && weight(0x6318u16 ^ 0x40CEu16) >= 7
        &&& weight(0x6318u16 ^ 0x4F97u16) >= 7 && weight(0x6318u16 ^ 0x4AA0u16) >= 7
        &&& weight(0x6C41u16 ^ 0x5412u16) >= 7 && weight(0x6C41u16 ^ 0x5125u16) >= 7
        &&& weight(0x6C41u16 ^ 0x5E7Cu16) >= 7 && weight(0x6C41u16 ^ 0x5B4Bu16) >= 7
        &&& weight(0x6C41u16 ^ 0x45F9u16) >= 7 && weight(0x6C41u16 ^ 0x40CEu16) >= 7
        &&& weight(0x6C41u16 ^ 0x4F97u16) >= 7 && weight(0x6C41u16 ^ 0x4AA0u16) >= 7
        &&& weight(0x6976u16 ^ 0x5412u16) >= 7 && weight(0x6976u16 ^ 0x5125u16) >= 7
        &&& weight(0x6976u16 ^ 0x5E7Cu16) >= 7 && weight(0x6976u16 ^ 0x5B4Bu16) >= 7
        &&& weight(0x6976u16 ^ 0x45F9u16) >= 7 && weight(0x6976u16 ^ 0x40CEu16) >= 7
        &&& weight(0x6976u16 ^ 0x4F97u16) >= 7 && weight(0x6976u16 ^ 0x4AA0u16) >= 7
    }) by (bit_vector);
    assert(m1 == 0 || m1 == 1 || m1 == 2 || m1 == 3 || m1 == 4 || m1 == 5 || m1 == 6 || m1 == 7);
    assert(m2 == 0 || m2 == 1 || m2 == 2 || m2 == 3 || m2 == 4 || m2 == 5 || m2 == 6 || m2 == 7);
}

/// Words of levels L and Q are at least seven bits apart.
proof fn lemma_format_distance_lq(m1: int, m2: int)
    requires
        0 <= m1 < 8,
        0 <= m2 < 8,
    ensures
        weight(format_of(ECL::L, m1) ^ format_of(ECL::Q, m2)) >= 7,
{
    assert({
        &&& weight(0x77C4u16 ^ 0x355Fu16) >= 7 && weight(0x77C4u16 ^ 0x3068u16) >= 7
        &&& weight(0x77C4u16 ^ 0x3F31u16) >= 7 && weight(0x77C4u16 ^ 0x3A06u16) >= 7
        &&& weight(0x77C4u16 ^ 0x24B4u16) >= 7 && weight(0x77C4u16 ^ 0x2183u16) >= 7
        &&& weight(0x77C4u16 ^ 0x2EDAu16) >= 7 && weight(0x77C4u16 ^ 0x2BEDu16) >= 7
        &&& weight(0x72F3u16 ^ 0x355Fu16) >= 7 && weight(0x72F3u16 ^ 0x3068u16) >= 7
        &&& weight(0x72F3u16 ^ 0x3F31u16) >= 7 && weight(0x72F3u16 ^ 0x3A06u16) >= 7
        &&& weight(0x72F3u16 ^ 0x24B4u16) >= 7 && weight(0x72F3u16 ^ 0x2183u16) >= 7
        &&& weight(0x72F3u16 ^ 0x2EDAu16) >= 7 && weight(0x72F3u16 ^ 0x2BEDu16) >= 7
        &&& weight(0x7DAAu16 ^ 0x355Fu16) >= 7 && weight(0x7DAAu16 ^ 0x3068u16) >= 7
        &&& weight(0x7DAAu16 ^ 0x3F31u16) >= 7 && weight(0x7DAAu16 ^ 0x3A06u16) >= 7
        &&& weight(0x7DAAu16 ^ 0x24B4u16) >= 7 && weight(0x7DAAu16 ^ 0x2183u16) >= 7
        &&& weight(0x7DAAu16 ^ 0x2EDAu16) >= 7 && weight(0x7DAAu16 ^ 0x2BEDu16) >= 7
        &&& weight(0x789Du16 ^ 0x355Fu16) >= 7 && weight(0x789Du16 ^ 0x3068u16) >= 7
        &&& weight(0x789Du16 ^ 0x3F31u16) >= 7 && weight(0x789Du16 ^ 0x3A06u16) >= 7
        &&& weight(0x789Du16 ^ 0x24B4u16) >= 7 && weight(0x789Du16 ^ 0x2183u16) >= 7
        &&& weight(0x789Du16 ^ 0x2EDAu16) >= 7 && weight(0x789Du16 ^ 0x2BEDu16) >= 7
        &&& weight(0x662Fu16 ^ 0x355Fu16) >= 7 && weight(0x662Fu16 ^ 0x3068u16) >= 7
        &&& weight(0x662Fu16 ^ 0x3F31u16) >= 7 && weight(0x662Fu16 ^ 0x3A06u16) >= 7
        &&& weight(0x662Fu16 ^ 0x24B4u16) >= 7 && weight(0x662Fu16 ^ 0x2183u16) >= 7
        &&& weight(0x662Fu16 ^ 0x2EDAu16) >= 7 && weight(0x662Fu16 ^ 0x2BEDu16) >= 7
        &&& weight(0x6318u16 ^ 0x355Fu16) >= 7 && weight(0x6318u16 ^ 0x3068u16) >= 7
        &&& weight(0x6318u16 ^ 0x3F31u16) >= 7 && weight(0x6318u16 ^ 0x3A06u16) >= 7
        &&& weight(0x6318u16 ^ 0x24B4u16) >= 7 && weight(0x6318u16 ^ 0x2183u16) >= 7
        &&& weight(0x6318u16 ^ 0x2EDAu16) >= 7 && weight(0x6318u16 ^ 0x2BEDu16) >= 7
        &&& weight(0x6C41u16 ^ 0x355Fu16) >= 7 && weight(0x6C41u16 ^ 0x3068u16) >= 7
        &&& weight(0x6C41u16 ^ 0x3F31u16) >= 7 && weight(0x6C41u16 ^ 0x3A06u16) >= 7
        &&& weight(0x6C41u16 ^ 0x24B4u16) >= 7 && weight(0x6C41u16 ^ 0x2183u16) >= 7
        &&& weight(0x6C41u16 ^ 0x2EDAu16) >= 7 && weight(0x6C41u16 ^ 0x2BEDu16) >= 7
        &&& weight(0x6976u16 ^ 0x355Fu16) >= 7 && weight(0x6976u16 ^ 0x3068u16) >= 7
        &&& weight(0x6976u16 ^ 0x3F31u16) >= 7 && weight(0x6976u16 ^ 0x3A06u16) >= 7
        &&& weight(0x6976u16 ^ 0x24B4u16) >= 7 && weight(0x6976u16 ^ 0x2183u16) >= 7
        &&& weight(0x6976u16 ^ 0x2EDAu16) >= 7 && weight(0x6976u16 ^ 0x2BEDu16) >= 7
    }) by (bit_vector);
    assert(m1 == 0 || m1 == 1 || m1 == 2 || m1 == 3 || m1 == 4 || m1 == 5 || m1 == 6 || m1 == 7);
    assert(m2 == 0 || m2 == 1 || m2 == 2 || m2 == 3 || m2 == 4 || m2 == 5 || m2 == 6 || m2 == 7);
}

/// Words of levels L and H are at least seven bits apart.
proof fn lemma_format_distance_lh(m1: int, m2: int)
    requires
        0 <= m1 < 8,
        0 <= m2 < 8,
    ensures
        weight(format_of(ECL::L, m1) ^ format_of(ECL::H, m2)) >= 7,
{
    assert({
        &&& weight(0x77C4u16 ^ 0x1689u16) >= 7 && weight(0x77C4u16 ^ 0x13BEu16) >= 7
        &&& weight(0x77C4u16 ^ 0x1CE7u16) >= 7 && weight(0x77C4u16 ^ 0x19D0u16) >= 7
        &&& weight(0x77C4u16 ^ 0x0762u16) >= 7 && weight(0x77C4u16 ^ 0x0255u16) >= 7
        &&& weight(0x77C4u16 ^ 0x0D0Cu16) >= 7 && weight(0x77C4u16 ^ 0x083Bu16) >= 7
        &&& weight(0x72F3u16 ^ 0x1689u16) >= 7 && weight(0x72F3u16 ^ 0x13BEu16) >= 7
        &&& weight(0x72F3u16 ^ 0x1CE7u16) >= 7 && weight(0x72F3u16 ^ 0x19D0u16) >= 7
        &&& weight(0x72F3u16 ^ 0x0762u16) >= 7 && weight(0x72F3u16 ^ 0x0255u16) >= 7
        &&& weight(0x72F3u16 ^ 0x0D0Cu16) >= 7 && weight(0x72F3u16 ^ 0x083Bu16) >= 7
        &&& weight(0x7DAAu16 ^ 0x1689u16) >= 7 && weight(0x7DAAu16 ^ 0x13BEu16) >= 7
        &&& weight(0x7DAAu16 ^ 0x1CE7u16) >= 7 && weight(0x7DAAu16 ^ 0x19D0u16) >= 7
        &&& weight(0x7DAAu16 ^ 0x0762u16) >= 7 && weight(0x7DAAu16 ^ 0x0255u16) >= 7
        &&& weight(0x7DAAu16 ^ 0x0D0Cu16) >= 7 && weight(0x7DAAu16 ^ 0x083Bu16) >= 7
        &&& weight(0x789Du16 ^ 0x1689u16) >= 7 && weight(0x789Du16 ^ 0x13BEu16) >= 7
        &&& weight(0x789Du16 ^ 0x1CE7u16) >= 7 && weight(0x789Du16 ^ 0x19D0u16) >= 7
        &&& weight(0x789Du16 ^ 0x0762u16) >= 7 && weight(0x789Du16 ^ 0x0255u16) >= 7
        &&& weight(0x789Du16 ^ 0x0D0Cu16) >= 7 && weight(0x789Du16 ^ 0x083Bu16) >= 7
        &&& weight(0x662Fu16 ^ 0x1689u16) >= 7 && weight(0x662Fu16 ^ 0x13BEu16) >= 7
        &&& weight(0x662Fu16 ^ 0x1CE7u16) >= 7 && weight(0x662Fu16 ^ 0x19D0u16) >= 7
        &&& weight(0x662Fu16 ^ 0x0762u16) >= 7 && weight(0x662Fu16 ^ 0x0255u16) >= 7
        &&& weight(0x662Fu16 ^ 0x0D0Cu16) >= 7 && weight(0x662Fu16 ^ 0x083Bu16) >= 7
        &&& weight(0x6318u16 ^ 0x1689u16) >= 7 && weight(0x6318u16 ^ 0x13BEu16) >= 7
        &&& weight(0x6318u16 ^ 0x1CE7u16) >= 7 && weight(0x6318u16 ^ 0x19D0u16) >= 7
        &&& weight(0x6318u16 ^ 0x0762u16) >= 7 && weight(0x6318u16 ^ 0x0255u16) >= 7
        &&& weight(0x6318u16 ^ 0x0D0Cu16) >= 7 && weight(0x6318u16 ^ 0x083Bu16) >= 7
        &&& weight(0x6C41u16 ^ 0x1689u16) >= 7 && weight(0x6C41u16 ^ 0x13BEu16) >= 7
        &&& weight(0x6C41u16 ^ 0x1CE7u16) >= 7 && weight(0x6C41u16 ^ 0x19D0u16) >= 7
        &&& weight(0x6C41u16 ^ 0x0762u16) >= 7 && weight(0x6C41u16 ^ 0x0255u16) >= 7
        &&& weight(0x6C41u16 ^ 0x0D0Cu16) >= 7 && weight(0x6C41u16 ^ 0x083Bu16) >= 7
        &&& weight(0x6976u16 ^ 0x1689u16) >= 7 && weight(0x6976u16 ^ 0x13BEu16) >= 7
        &&& weight(0x6976u16 ^ 0x1CE7u16) >= 7 && weight(0x6976u16 ^ 0x19D0u16) >= 7
        &&& weight(0x6976u16 ^ 0x0762u16) >= 7 && weight(0x6976u16 ^ 0x0255u16) >= 7
        &&& weight(0x6976u16 ^ 0x0D0Cu16) >= 7 && weight(0x6976u16 ^ 0x083Bu16) >= 7
    }) by (bit_vector);
    assert(m1 == 0 || m1 == 1 || m1 == 2 || m1 == 3 || m1 == 4 || m1 == 5 || m1 == 6 || m1 == 7);
    assert(m2 == 0 || m2 == 1 || m2 == 2 || m2 == 3 || m2 == 4 || m2 == 5 || m2 == 6 || m2 == 7);
}

/// Words of levels M and L are at least seven bits apart.
proof fn lemma_format_distance_ml(m1: int, m2: int)
    requires
        0 <= m1 < 8,
        0 <= m2 < 8,
    ensures
        weight(format_of(ECL::M, m1) ^ format_of(ECL::L, m2)) >= 7,
{
    assert({
        &&& weight(0x5412u16 ^ 0x77C4u16) >= 7 && weight(0x5412u16 ^ 0x72F3u16) >= 7
        &&& weight(0x5412u16 ^ 0x7DAAu16) >= 7 && weight(0x5412u16 ^ 0x789Du16) >= 7
        &&& weight(0x5412u16 ^ 0x662Fu16) >= 7 && weight(0x5412u16 ^ 0x6318u16) >= 7
        &&& weight(0x5412u16 ^ 0x6C41u16) >= 7 && weight(0x5412u16 ^ 0x6976u16) >= 7
        &&& weight(0x5125u16 ^ 0x77C4u16) >= 7 && weight(0x5125u16 ^ 0x72F3u16) >= 7
        &&& weight(0x5125u16 ^ 0x7DAAu16) >= 7 && weight(0x5125u16 ^ 0x789Du16) >= 7
        &&& weight(0x5125u16 ^ 0x662Fu16) >= 7 && weight(0x5125u16 ^ 0x6318u16) >= 7
        &&& weight(0x5125u16 ^ 0x6C41u16) >= 7 && weight(0x5125u16 ^ 0x6976u16) >= 7
        &&& weight(0x5E7Cu16 ^ 0x77C4u16) >= 7 && weight(0x5E7Cu16 ^ 0x72F3u16) >= 7
        &&& weight(0x5E7Cu16 ^ 0x7DAAu16) >= 7 && weight(0x5E7Cu16 ^ 0x789Du16) >= 7
        &&& weight(0x5E7Cu16 ^ 0x662Fu16) >= 7 && weight(0x5E7Cu16 ^ 0x6318u16) >= 7
        &&& weight(0x5E7Cu16 ^ 0x6C41u16) >= 7 && weight(0x5E7Cu16 ^ 0x6976u16) >= 7
        &&& weight(0x5B4Bu16 ^ 0x77C4u16) >= 7 && weight(0x5B4Bu16 ^ 0x72F3u16) >= 7
        &&& weight(0x5B4Bu16 ^ 0x7DAAu16) >= 7 && weight(0x5B4Bu16 ^ 0x789Du16) >= 7
        &&& weight(0x5B4Bu16 ^ 0x662Fu16) >= 7 && weight(0x5B4Bu16 ^ 0x6318u16) >= 7
        &&& weight(0x5B4Bu16 ^ 0x6C41u16) >= 7 && weight(0x5B4Bu16 ^ 0x6976u16) >= 7
        &&& weight(0x45F9u16 ^ 0x77C4u16) >= 7 && weight(0x45F9u16 ^ 0x72F3u16) >= 7
        &&& weight(0x45F9u16 ^ 0x7DAAu16) >= 7 && weight(0x45F9u16 ^ 0x789Du16) >= 7
        &&& weight(0x45F9u16 ^ 0x662Fu16) >= 7 && weight(0x45F9u16 ^ 0x6318u16) >= 7
        &&& weight(0x45F9u16 ^ 0x6C41u16) >= 7 && weight(0x45F9u16 ^ 0x6976u16) >= 7
        &&& weight(0x40CEu16 ^ 0x77C4u16) >= 7 && weight(0x40CEu16 ^ 0x72F3u16) >= 7
        &&& weight(0x40CEu16 ^ 0x7DAAu16) >= 7 && weight(0x40CEu16 ^ 0x789Du16) >= 7
        &&& weight(0x40CEu16 ^ 0x662Fu16) >= 7 && weight(0x40CEu16 ^ 0x6318u16) >= 7
        &&& weight(0x40CEu16 ^ 0x6C41u16) >= 7 && weight(0x40CEu16 ^ 0x6976u16) >= 7
        &&& weight(0x4F97u16 ^ 0x77C4u16) >= 7 && weight(0x4F97u16 ^ 0x72F3u16) >= 7
        &&& weight(0x4F97u16 ^ 0x7DAAu16) >= 7 && weight(0x4F97u16 ^ 0x789Du16) >= 7
        &&& weight(0x4F97u16 ^ 0x662Fu16) >= 7 && weight(0x4F97u16 ^ 0x6318u16) >= 7
        &&& weight(0x4F97u16 ^ 0x6C41u16) >= 7 && weight(0x4F97u16 ^ 0x6976u16) >= 7
        &&& weight(0x4AA0u16 ^ 0x77C4u16) >= 7 && weight(0x4AA0u16 ^ 0x72F3u16) >= 7
        &&& weight(0x4AA0u16 ^ 0x7DAAu16) >= 7 && weight(0x4AA0u16 ^ 0x789Du16) >= 7
        &&& weight(0x4AA0u16 ^ 0x662Fu16) >= 7 && weight(0x4AA0u16 ^ 0x6318u16) >= 7
        &&& weight(0x4AA0u16 ^ 0x6C41u16) >= 7 && weight(0x4AA0u16 ^ 0x6976u16) >= 7
    }) by (bit_vector);
    assert(m1 == 0 || m1 == 1 || m1 == 2 || m1 == 3 || m1 == 4 || m1 == 5 || m1 == 6 || m1 == 7);
    assert(m2 == 0 || m2 == 1 || m2 == 2 || m2 == 3 || m2 == 4 || m2 == 5 || m2 == 6 || m2 == 7);
}

/// Words of levels M and M are at least seven bits apart.
proof fn lemma_format_distance_mm(m1: int, m2: int)
    requires
        0 <= m1 < 8,
        0 <= m2 < 8,
        m1 != m2,
    ensures
        weight(format_of(ECL::M, m1) ^ format_of(ECL::M, m2)) >= 7,
{
    assert({
        &&& weight(0x5412u16 ^ 0x5125u16) >= 7 && weight(0x5412u16 ^ 0x5E7Cu16) >= 7
        &&& weight(0x5412u16 ^ 0x5B4Bu16) >= 7 && weight(0x5412u16 ^ 0x45F9u16) >= 7
        &&& weight(0x5412u16 ^ 0x40CEu16) >= 7 && weight(0x5412u16 ^ 0x4F97u16) >= 7
        &&& weight(0x5412u16 ^ 0x4AA0u16) >= 7 && weight(0x5125u16 ^ 0x5412u16) >= 7
        &&& weight(0x5125u16 ^ 0x5E7Cu16) >= 7 && weight(0x5125u16 ^ 0x5B4Bu16) >= 7
        &&& weight(0x5125u16 ^ 0x45F9u16) >= 7 && weight(0x5125u16 ^ 0x40CEu16) >= 7
        &&& weight(0x5125u16 ^ 0x4F97u16) >= 7 && weight(0x5125u16 ^ 0x4AA0u16) >= 7
        &&& weight(0x5E7Cu16 ^ 0x5412u16) >= 7 && weight(0x5E7Cu16 ^ 0x5125u16) >= 7
        &&& weight(0x5E7Cu16 ^ 0x5B4Bu16) >= 7 && weight(0x5E7Cu16 ^ 0x45F9u16) >= 7
        &&& weight(0x5E7Cu16 ^ 0x40CEu16) >= 7 && weight(0x5E7Cu16 ^ 0x4F97u16) >= 7
        &&& weight(0x5E7Cu16 ^ 0x4AA0u16) >= 7 && weight(0x5B4Bu16 ^ 0x5412u16) >= 7
        &&& weight(0x5B4Bu16 ^ 0x5125u16) >= 7 && weight(0x5B4Bu16 ^ 0x5E7Cu16) >= 7
        &&& weight(0x5B4Bu16 ^ 0x45F9u16) >= 7 && weight(0x5B4Bu16 ^ 0x40CEu16) >= 7
        &&& weight(0x5B4Bu16 ^ 0x4F97u16) >= 7 && weight(0x5B4Bu16 ^ 0x4AA0u16) >= 7
        &&& weight(0x45F9u16 ^ 0x5412u16) >= 7 && weight(0x45F9u16 ^ 0x5125u16) >= 7
        &&& weight(0x45F9u16 ^ 0x5E7Cu16) >= 7 && weight(0x45F9u16 ^ 0x5B4Bu16) >= 7
        &&& weight(0x45F9u16 ^ 0x40CEu16) >= 7 && weight(0x45F9u16 ^ 0x4F97u16) >= 7
        &&& weight(0x45F9u16 ^ 0x4AA0u16) >= 7 && weight(0x40CEu16 ^ 0x5412u16) >= 7
        &&& weight(0x40CEu16 ^ 0x5125u16) >= 7 && weight(0x40CEu16 ^ 0x5E7Cu16) >= 7
        &&& weight(0x40CEu16 ^ 0x5B4Bu16) >= 7 && weight(0x40CEu16 ^ 0x45F9u16) >= 7
        &&& weight(0x40CEu16 ^ 0x4F97u16) >= 7 && weight(0x40CEu16 ^ 0x4AA0u16) >= 7
        &&& weight(0x4F97u16 ^ 0x5412u16) >= 7 && weight(0x4F97u16 ^ 0x5125u16) >= 7
        &&& weight(0x4F97u16 ^ 0x5E7Cu16) >= 7 && weight(0x4F97u16 ^ 0x5B4Bu16) >= 7
        &&& weight(0x4F97u16 ^ 0x45F9u16) >= 7 && weight(0x4F97u16 ^ 0x40CEu16) >= 7
        &&& weight(0x4F97u16 ^ 0x4AA0u16) >= 7 && weight(0x4AA0u16 ^ 0x5412u16) >= 7
        &&& weight(0x4AA0u16 ^ 0x5125u16) >= 7 && weight(0x4AA0u16 ^ 0x5E7Cu16) >= 7
        &&& weight(0x4AA0u16 ^ 0x5B4Bu16) >= 7 && weight(0x4AA0u16 ^ 0x45F9u16) >= 7
        &&& weight(0x4AA0u16 ^ 0x40CEu16) >= 7 && weight(0x4AA0u16 ^ 0x4F97u16) >= 7
    }) by (bit_vector);
    assert(m1 == 0 || m1 == 1 || m1 == 2 || m1 == 3 || m1 == 4 || m1 == 5 || m1 == 6 || m1 == 7);
    assert(m2 == 0 || m2 == 1 || m2 == 2 || m2 == 3 || m2 == 4 || m2 == 5 || m2 == 6 || m2 == 7);
}

/// Words of levels M and Q are at least seven bits apart.
proof fn lemma_format_distance_mq(m1: int, m2: int)
    requires
        0 <= m1 < 8,
        0 <= m2 < 8,
    ensures
        weight(format_of(ECL::M, m1) ^ format_of(ECL::Q, m2)) >= 7,
{
    assert({
        &&& weight(0x5412u16 ^ 0x355Fu16) >= 7 && weight(0x5412u16 ^ 0x3068u16) >= 7
        &&& weight(0x5412u16 ^ 0x3F31u16) >= 7 && weight(0x5412u16 ^ 0x3A06u16) >= 7
        &&& weight(0x5412u16 ^ 0x24B4u16) >= 7 && weight(0x5412u16 ^ 0x2183u16) >= 7
        &&& weight(0x5412u16 ^ 0x2EDAu16) >= 7 && weight(0x5412u16 ^ 0x2BEDu16) >= 7
        &&& weight(0x5125u16 ^ 0x355Fu16) >= 7 && weight(0x5125u16 ^ 0x3068u16) >= 7
        &&& weight(0x5125u16 ^ 0x3F31u16) >= 7 && weight(0x5125u16 ^ 0x3A06u16) >= 7
        &&& weight(0x5125u16 ^ 0x24B4u16) >= 7 && weight(0x5125u16 ^ 0x2183u16) >= 7
        &&& weight(0x5125u16 ^ 0x2EDAu16) >= 7 && weight(0x5125u16 ^ 0x2BEDu16) >= 7
        &&& weight(0x5E7Cu16 ^ 0x355Fu16) >= 7 && weight(0x5E7Cu16 ^ 0x3068u16) >= 7
        &&& weight(0x5E7Cu16 ^ 0x3F31u16) >= 7 && weight(0x5E7Cu16 ^ 0x3A06u16) >= 7
        &&& weight(0x5E7Cu16 ^ 0x24B4u16) >= 7 && weight(0x5E7Cu16 ^ 0x2183u16) >= 7
        &&& weight(0x5E7Cu16 ^ 0x2EDAu16) >= 7 && weight(0x5E7Cu16 ^ 0x2BEDu16) >= 7
        &&& weight(0x5B4Bu16 ^ 0x355Fu16) >= 7 && weight(0x5B4Bu16 ^ 0x3068u16) >= 7
        &&& weight(0x5B4Bu16 ^ 0x3F31u16) >= 7 && weight(0x5B4Bu16 ^ 0x3A06u16) >= 7
        &&& weight(0x5B4Bu16 ^ 0x24B4u16) >= 7 && weight(0x5B4Bu16 ^ 0x2183u16) >= 7
        &&& weight(0x5B4Bu16 ^ 0x2EDAu16) >= 7 && weight(0x5B4Bu16 ^ 0x2BEDu16) >= 7
        &&& weight(0x45F9u16 ^ 0x355Fu16) >= 7 && weight(0x45F9u16 ^ 0x3068u16) >= 7
        &&& weight(0x45F9u16 ^ 0x3F31u16) >= 7 && weight(0x45F9u16 ^ 0x3A06u16) >= 7
        &&& weight(0x45F9u16 ^ 0x24B4u16) >= 7 && weight(0x45F9u16 ^ 0x2183u16) >= 7
        &&& weight(0x45F9u16 ^ 0x2EDAu16) >= 7 && weight(0x45F9u16 ^ 0x2BEDu16) >= 7
        &&& weight(0x40CEu16 ^ 0x355Fu16) >= 7 && weight(0x40CEu16 ^ 0x3068u16) >= 7
        &&& weight(0x40CEu16 ^ 0x3F31u16) >= 7 && weight(0x40CEu16 ^ 0x3A06u16) >= 7
        &&& weight(0x40CEu16 ^ 0x24B4u16) >= 7 && weight(0x40CEu16 ^ 0x2183u16) >= 7
        &&& weight(0x40CEu16 ^ 0x2EDAu16) >= 7 && weight(0x40CEu16 ^ 0x2BEDu16) >= 7
        &&& weight(0x4F97u16 ^ 0x355Fu16) >= 7 && weight(0x4F97u16 ^ 0x3068u16) >= 7
        &&& weight(0x4F97u16 ^ 0x3F31u16) >= 7 && weight(0x4F97u16 ^ 0x3A06u16) >= 7
        &&& weight(0x4F97u16 ^ 0x24B4u16) >= 7 && weight(0x4F97u16 ^ 0x2183u16) >= 7
        &&& weight(0x4F97u16 ^ 0x2EDAu16) >= 7 && weight(0x4F97u16 ^ 0x2BEDu16) >= 7
        &&& weight(0x4AA0u16 ^ 0x355Fu16) >= 7 && weight(0x4AA0u16 ^ 0x3068u16) >= 7
        &&& weight(0x4AA0u16 ^ 0x3F31u16) >= 7 && weight(0x4AA0u16 ^ 0x3A06u16) >= 7
        &&& weight(0x4AA0u16 ^ 0x24B4u16) >= 7 && weight(0x4AA0u16 ^ 0x2183u16) >= 7
        &&& weight(0x4AA0u16 ^ 0x2EDAu16) >= 7 && weight(0x4AA0u16 ^ 0x2BEDu16) >= 7
    }) by (bit_vector);
    assert(m1 == 0 || m1 == 1 || m1 == 2 || m1 == 3 || m1 == 4 || m1 == 5 || m1 == 6 || m1 == 7);
    assert(m2 == 0 || m2 == 1 || m2 == 2 || m2 == 3 || m2 == 4 || m2 == 5 || m2 == 6 || m2 == 7);
}

/// Words of levels M and H are at least seven bits apart.
proof fn lemma_format_distance_mh(m1: int, m2: int)
    requires
        0 <= m1 < 8,
        0 <= m2 < 8,
    ensures
        weight(format_of(ECL::M, m1) ^ format_of(ECL::H, m2)) >= 7,
{
    assert({
        &&& weight(0x5412u16 ^ 0x1689u16) >= 7 && weight(0x5412u16 ^ 0x13BEu16) >= 7
        &&& weight(0x5412u16 ^ 0x1CE7u16) >= 7 && weight(0x5412u16 ^ 0x19D0u16) >= 7
        &&& weight(0x5412u16 ^ 0x0762u16) >= 7 && weight(0x5412u16 ^ 0x0255u16) >= 7
        &&& weight(0x5412u16 ^ 0x0D0Cu16) >= 7 && weight(0x5412u16 ^ 0x083Bu16) >= 7
        &&& weight(0x5125u16 ^ 0x1689u16) >= 7 && weight(0x5125u16 ^ 0x13BEu16) >= 7
        &&& weight(0x5125u16 ^ 0x1CE7u16) >= 7 && weight(0x5125u16 ^ 0x19D0u16) >= 7
        &&& weight(0x5125u16 ^ 0x0762u16) >= 7 && weight(0x5125u16 ^ 0x0255u16) >= 7
        &&& weight(0x5125u16 ^ 0x0D0Cu16) >= 7 && weight(0x5125u16 ^ 0x083Bu16) >= 7
        &&& weight(0x5E7Cu16 ^ 0x1689u16) >= 7 && weight(0x5E7Cu16 ^ 0x13BEu16) >= 7
        &&& weight(0x5E7Cu16 ^ 0x1CE7u16) >= 7 && weight(0x5E7Cu16 ^ 0x19D0u16) >= 7
        &&& weight(0x5E7Cu16 ^ 0x0762u16) >= 7 && weight(0x5E7Cu16 ^ 0x0255u16) >= 7
        &&& weight(0x5E7Cu16 ^ 0x0D0Cu16) >= 7 && weight(0x5E7Cu16 ^ 0x083Bu16) >= 7
        &&& weight(0x5B4Bu16 ^ 0x1689u16) >= 7 && weight(0x5B4Bu16 ^ 0x13BEu16) >= 7
        &&& weight(0x5B4Bu16 ^ 0x1CE7u16) >= 7 && weight(0x5B4Bu16 ^ 0x19D0u16) >= 7
        &&& weight(0x5B4Bu16 ^ 0x0762u16) >= 7 && weight(0x5B4Bu16 ^ 0x0255u16) >= 7
        &&& weight(0x5B4Bu16 ^ 0x0D0Cu16) >= 7 && weight(0x5B4Bu16 ^ 0x083Bu16) >= 7
        &&& weight(0x45F9u16 ^ 0x1689u16) >= 7 && weight(0x45F9u16 ^ 0x13BEu16) >= 7
        &&& weight(0x45F9u16 ^ 0x1CE7u16) >= 7 && weight(0x45F9u16 ^ 0x19D0u16) >= 7
        &&& weight(0x45F9u16 ^ 0x0762u16) >= 7 && weight(0x45F9u16 ^ 0x0255u16) >= 7
        &&& weight(0x45F9u16 ^ 0x0D0Cu16) >= 7 && weight(0x45F9u16 ^ 0x083Bu16) >= 7
        &&& weight(0x40CEu16 ^ 0x1689u16) >= 7 && weight(0x40CEu16 ^ 0x13BEu16) >= 7
        &&& weight(0x40CEu16 ^ 0x1CE7u16) >= 7 && weight(0x40CEu16 ^ 0x19D0u16) >= 7
        &&& weight(0x40CEu16 ^ 0x0762u16) >= 7 && weight(0x40CEu16 ^ 0x0255u16) >= 7
        &&& weight(0x40CEu16 ^ 0x0D0Cu16) >= 7 && weight(0x40CEu16 ^ 0x083Bu16) >= 7
        &&& weight(0x4F97u16 ^ 0x1689u16) >= 7 && weight(0x4F97u16 ^ 0x13BEu16) >= 7
        &&& weight(0x4F97u16 ^ 0x1CE7u16) >= 7 && weight(0x4F97u16 ^ 0x19D0u16) >= 7
        &&& weight(0x4F97u16 ^ 0x0762u16) >= 7 && weight(0x4F97u16 ^ 0x0255u16) >= 7
        &&& weight(0x4F97u16 ^ 0x0D0Cu16) >= 7 && weight(0x4F97u16 ^ 0x083Bu16) >= 7
        &&& weight(0x4AA0u16 ^ 0x1689u16) >= 7 && weight(0x4AA0u16 ^ 0x13BEu16) >= 7
        &&& weight(0x4AA0u16 ^ 0x1CE7u16) >= 7 && weight(0x4AA0u16 ^ 0x19D0u16) >= 7
        &&& weight(0x4AA0u16 ^ 0x0762u16) >= 7 && weight(0x4AA0u16 ^ 0x0255u16) >= 7
        &&& weight(0x4AA0u16 ^ 0x0D0Cu16) >= 7 && weight(0x4AA0u16 ^ 0x083Bu16) >= 7
    }) by (bit_vector);
    assert(m1 == 0 || m1 == 1 || m1 == 2 || m1 == 3 || m1 == 4 || m1 == 5 || m1 == 6 || m1 == 7);
    assert(m2 == 0 || m2 == 1 || m2 == 2 || m2 == 3 || m2 == 4 || m2 == 5 || m2 == 6 || m2 == 7);
}

/// Words of levels Q and L are at least seven bits apart.
proof fn lemma_format_distance_ql(m1: int, m2: int)
    requires
        0 <= m1 < 8,
        0 <= m2 < 8,
    ensures
        weight(format_of(ECL::Q, m1) ^ format_of(ECL::L, m2)) >= 7,
{
    assert({
        &&& weight(0x355Fu16 ^ 0x77C4u16) >= 7 && weight(0x355Fu16 ^ 0x72F3u16) >= 7
        &&& weight(0x355Fu16 ^ 0x7DAAu16) >= 7 && weight(0x355Fu16 ^ 0x789Du16) >= 7
        &&& weight(0x355Fu16 ^ 0x662Fu16) >= 7 && weight(0x355Fu16 ^ 0x6318u16) >= 7
        &&& weight(0x355Fu16 ^ 0x6C41u16) >= 7 && weight(0x355Fu16 ^ 0x6976u16) >= 7
        &&& weight(0x3068u16 ^ 0x77C4u16) >= 7 && weight(0x3068u16 ^ 0x72F3u16) >= 7
        &&& weight(0x3068u16 ^ 0x7DAAu16) >= 7 && weight(0x3068u16 ^ 0x789Du16) >= 7
        &&& weight(0x3068u16 ^ 0x662Fu16) >= 7 && weight(0x3068u16 ^ 0x6318u16) >= 7
        &&& weight(0x3068u16 ^ 0x6C41u16) >= 7 && weight(0x3068u16 ^ 0x6976u16) >= 7
        &&& weight(0x3F31u16 ^ 0x77C4u16) >= 7 && weight(0x3F31u16 ^ 0x72F3u16) >= 7
        &&& weight(0x3F31u16 ^ 0x7DAAu16) >= 7 && weight(0x3F31u16 ^ 0x789Du16) >= 7
        &&& weight(0x3F31u16 ^ 0x662Fu16) >= 7 && weight(0x3F31u16 ^ 0x6318u16) >= 7
        &&& weight(0x3F31u16 ^ 0x6C41u16) >= 7 && weight(0x3F31u16 ^ 0x6976u16) >= 7
        &&& weight(0x3A06u16 ^ 0x77C4u16) >= 7 && weight(0x3A06u16 ^ 0x72F3u16) >= 7
        &&& weight(0x3A06u16 ^ 0x7DAAu16) >= 7 && weight(0x3A06u16 ^ 0x789Du16) >= 7
        &&& weight(0x3A06u16 ^ 0x662Fu16) >= 7 && weight(0x3A06u16 ^ 0x6318u16) >= 7
        &&& weight(0x3A06u16 ^ 0x6C41u16) >= 7 && weight(0x3A06u16 ^ 0x6976u16) >= 7
        &&& weight(0x24B4u16 ^ 0x77C4u16) >= 7 && weight(0x24B4u16 ^ 0x72F3u16) >= 7
        &&& weight(0x24B4u16 ^ 0x7DAAu16) >= 7 && weight(0x24B4u16 ^ 0x789Du16) >= 7
        &&& weight(0x24B4u16 ^ 0x662Fu16) >= 7 && weight(0x24B4u16 ^ 0x6318u16) >= 7
        &&& weight(0x24B4u16 ^ 0x6C41u16) >= 7 && weight(0x24B4u16 ^ 0x6976u16) >= 7
        &&& weight(0x2183u16 ^ 0x77C4u16) >= 7 && weight(0x2183u16 ^ 0x72F3u16) >= 7
        &&& weight(0x2183u16 ^ 0x7DAAu16) >= 7 && weight(0x2183u16 ^ 0x789Du16) >= 7
        &&& weight(0x2183u16 ^ 0x662Fu16) >= 7 && weight(0x2183u16 ^ 0x6318u16) >= 7
        &&& weight(0x2183u16 ^ 0x6C41u16) >= 7 && weight(0x2183u16 ^ 0x6976u16) >= 7
        &&& weight(0x2EDAu16 ^ 0x77C4u16) >= 7 && weight(0x2EDAu16 ^ 0x72F3u16) >= 7
        &&& weight(0x2EDAu16 ^ 0x7DAAu16) >= 7 && weight(0x2EDAu16 ^ 0x789Du16) >= 7
        &&& weight(0x2EDAu16 ^ 0x662Fu16) >= 7 && weight(0x2EDAu16 ^ 0x6318u16) >= 7
        &&& weight(0x2EDAu16 ^ 0x6C41u16) >= 7 && weight(0x2EDAu16 ^ 0x6976u16) >= 7
        &&& weight(0x2BEDu16 ^ 0x77C4u16) >= 7 && weight(0x2BEDu16 ^ 0x72F3u16) >= 7
        &&& weight(0x2BEDu16 ^ 0x7DAAu16) >= 7 && weight(0x2BEDu16 ^ 0x789Du16) >= 7
        &&& weight(0x2BEDu16 ^ 0x662Fu16) >= 7 && weight(0x2BEDu16 ^ 0x6318u16) >= 7
        &&& weight(0x2BEDu16 ^ 0x6C41u16) >= 7 && weight(0x2BEDu16 ^ 0x6976u16) >= 7
    }) by (bit_vector);
    assert(m1 == 0 || m1 == 1 || m1 == 2 || m1 == 3 || m1 == 4 || m1 == 5 || m1 == 6 || m1 == 7);
    assert(m2 == 0 || m2 == 1 || m2 == 2 || m2 == 3 || m2 == 4 || m2 == 5 || m2 == 6 || m2 == 7);
}

/// Words of levels Q and M are at least seven bits apart.
proof fn lemma_format_distance_qm(m1: int, m2: int)
    requires
        0 <= m1 < 8,
        0 <= m2 < 8,
    ensures
        weight(format_of(ECL::Q, m1) ^ format_of(ECL::M, m2)) >= 7,
{
    assert({
        &&& weight(0x355Fu16 ^ 0x5412u16) >= 7 && weight(0x355Fu16 ^ 0x5125u16) >= 7
        &&& weight(0x355Fu16 ^ 0x5E7Cu16) >= 7 && weight(0x355Fu16 ^ 0x5B4Bu16) >= 7
        &&& weight(0x355Fu16 ^ 0x45F9u16) >= 7 && weight(0x355Fu16 ^ 0x40CEu16) >= 7
        &&& weight(0x355Fu16 ^ 0x4F97u16) >= 7 && weight(0x355Fu16 ^ 0x4AA0u16) >= 7
        &&& weight(0x3068u16 ^ 0x5412u16) >= 7 && weight(0x3068u16 ^ 0x5125u16) >= 7
        &&& weight(0x3068u16 ^ 0x5E7Cu16) >= 7 && weight(0x3068u16 ^ 0x5B4Bu16) >= 7
        &&& weight(0x3068u16 ^ 0x45F9u16) >= 7 && weight(0x3068u16 ^ 0x40CEu16) >= 7
        &&& weight(0x3068u16 ^ 0x4F97u16) >= 7 && weight(0x3068u16 ^ 0x4AA0u16) >= 7
        &&& weight(0x3F31u16 ^ 0x5412u16) >= 7 && weight(0x3F31u16 ^ 0x5125u16) >= 7
        &&& weight(0x3F31u16 ^ 0x5E7Cu16) >= 7 && weight(0x3F31u16 ^ 0x5B4Bu16) >= 7
        &&& weight(0x3F31u16 ^ 0x45F9u16) >= 7 && weight(0x3F31u16 ^ 0x40CEu16) >= 7
        &&& weight(0x3F31u16 ^ 0x4F97u16) >= 7 && weight(0x3F31u16 ^ 0x4AA0u16) >= 7
        &&& weight(0x3A06u16 ^ 0x5412u16) >= 7 && weight(0x3A06u16 ^ 0x5125u16) >= 7
        &&& weight(0x3A06u16 ^ 0x5E7Cu16) >= 7 && weight(0x3A06u16 ^ 0x5B4Bu16) >= 7
        &&& weight(0x3A06u16 ^ 0x45F9u16) >= 7 && weight(0x3A06u16 ^ 0x40CEu16) >= 7
        &&& weight(0x3A06u16 ^ 0x4F97u16) >= 7 && weight(0x3A06u16 ^ 0x4AA0u16) >= 7
        &&& weight(0x24B4u16 ^ 0x5412u16) >= 7 && weight(0x24B4u16 ^ 0x5125u16) >= 7
        &&& weight(0x24B4u16 ^ 0x5E7Cu16) >= 7 && weight(0x24B4u16 ^ 0x5B4Bu16) >= 7
        &&& weight(0x24B4u16 ^ 0x45F9u16) >= 7 && weight(0x24B4u16 ^ 0x40CEu16) >= 7
        &&& weight(0x24B4u16 ^ 0x4F97u16) >= 7 && weight(0x24B4u16 ^ 0x4AA0u16) >= 7
        &&& weight(0x2183u16 ^ 0x5412u16) >= 7 && weight(0x2183u16 ^ 0x5125u16) >= 7
        &&& weight(0x2183u16 ^ 0x5E7Cu16) >= 7 && weight(0x2183u16 ^ 0x5B4Bu16) >= 7
        &&& weight(0x2183u16 ^ 0x45F9u16) >= 7 && weight(0x2183u16 ^ 0x40CEu16) >= 7
        &&& weight(0x2183u16 ^ 0x4F97u16) >= 7 && weight(0x2183u16 ^ 0x4AA0u16) >= 7
        &&& weight(0x2EDAu16 ^ 0x5412u16) >= 7 && weight(0x2EDAu16 ^ 0x5125u16) >= 7
        &&& weight(0x2EDAu16 ^ 0x5E7Cu16) >= 7 && weight(0x2EDAu16 ^ 0x5B4Bu16) >= 7
        &&& weight(0x2EDAu16 ^ 0x45F9u16) >= 7 && weight(0x2EDAu16 ^ 0x40CEu16) >= 7
        &&& weight(0x2EDAu16 ^ 0x4F97u16) >= 7 && weight(0x2EDAu16 ^ 0x4AA0u16) >= 7
        &&& weight(0x2BEDu16 ^ 0x5412u16) >= 7 && weight(0x2BEDu16 ^ 0x5125u16) >= 7
        &&& weight(0x2BEDu16 ^ 0x5E7Cu16) >= 7 && weight(0x2BEDu16 ^ 0x5B4Bu16) >= 7
        &&& weight(0x2BEDu16 ^ 0x45F9u16) >= 7 && weight(0x2BEDu16 ^ 0x40CEu16) >= 7
        &&& weight(0x2BEDu16 ^ 0x4F97u16) >= 7 && weight(0x2BEDu16 ^ 0x4AA0u16) >= 7
    }) by (bit_vector);
    assert(m1 == 0 || m1 == 1 || m1 == 2 || m1 == 3 || m1 == 4 || m1 == 5 || m1 == 6 || m1 == 7);
    assert(m2 == 0 || m2 == 1 || m2 == 2 || m2 == 3 || m2 == 4 || m2 == 5 || m2 == 6 || m2 == 7);
}

/// Words of levels Q and Q are at least seven bits apart.
proof fn lemma_format_distance_qq(m1: int, m2: int)
    requires
        0 <= m1 < 8,
        0 <= m2 < 8,
        m1 != m2,
    ensures
        weight(format_of(ECL::Q, m1) ^ format_of(ECL::Q, m2)) >= 7,
{
    assert({
        &&& weight(0x355Fu16 ^ 0x3068u16) >= 7 && weight(0x355Fu16 ^ 0x3F31u16) >= 7
        &&& weight(0x355Fu16 ^ 0x3A06u16) >= 7 && weight(0x355Fu16 ^ 0x24B4u16) >= 7
        &&& weight(0x355Fu16 ^ 0x2183u16) >= 7 && weight(0x355Fu16 ^ 0x2EDAu16) >= 7
        &&& weight(0x355Fu16 ^ 0x2BEDu16) >= 7 && weight(0x3068u16 ^ 0x355Fu16) >= 7
        &&& weight(0x3068u16 ^ 0x3F31u16) >= 7 && weight(0x3068u16 ^ 0x3A06u16) >= 7
        &&& weight(0x3068u16 ^ 0x24B4u16) >= 7 && weight(0x3068u16 ^ 0x2183u16) >= 7
        &&& weight(0x3068u16 ^ 0x2EDAu16) >= 7 && weight(0x3068u16 ^ 0x2BEDu16) >= 7
        &&& weight(0x3F31u16 ^ 0x355Fu16) >= 7 && weight(0x3F31u16 ^ 0x3068u16) >= 7
        &&& weight(0x3F31u16 ^ 0x3A06u16) >= 7 && weight(0x3F31u16 ^ 0x24B4u16) >= 7
        &&& weight(0x3F31u16 ^ 0x2183u16) >= 7 && weight(0x3F31u16 ^ 0x2EDAu16) >= 7
        &&& weight(0x3F31u16 ^ 0x2BEDu16) >= 7 && weight(0x3A06u16 ^ 0x355Fu16) >= 7
        &&& weight(0x3A06u16 ^ 0x3068u16) >= 7 && weight(0x3A06u16 ^ 0x3F31u16) >= 7
        &&& weight(0x3A06u16 ^ 0x24B4u16) >= 7 && weight(0x3A06u16 ^ 0x2183u16) >= 7
        &&& weight(0x3A06u16 ^ 0x2EDAu16) >= 7 && weight(0x3A06u16 ^ 0x2BEDu16) >= 7
        &&& weight(0x24B4u16 ^ 0x355Fu16) >= 7 && weight(0x24B4u16 ^ 0x3068u16) >= 7
        &&& weight(0x24B4u16 ^ 0x3F31u16) >= 7 && weight(0x24B4u16 ^ 0x3A06u16) >= 7
        &&& weight(0x24B4u16 ^ 0x2183u16) >= 7 && weight(0x24B4u16 ^ 0x2EDAu16) >= 7
        &&& weight(0x24B4u16 ^ 0x2BEDu16) >= 7 && weight(0x2183u16 ^ 0x355Fu16) >= 7
        &&& weight(0x2183u16 ^ 0x3068u16) >= 7 && weight(0x2183u16 ^ 0x3F31u16) >= 7
        &&& weight(0x2183u16 ^ 0x3A06u16) >= 7 && weight(0x2183u16 ^ 0x24B4u16) >= 7
        &&& weight(0x2183u16 ^ 0x2EDAu16) >= 7 && weight(0x2183u16 ^ 0x2BEDu16) >= 7
        &&& weight(0x2EDAu16 ^ 0x355Fu16) >= 7 && weight(0x2EDAu16 ^ 0x3068u16) >= 7
        &&& weight(0x2EDAu16 ^ 0x3F31u16) >= 7 && weight(0x2EDAu16 ^ 0x3A06u16) >= 7
        &&& weight(0x2EDAu16 ^ 0x24B4u16) >= 7 && weight(0x2EDAu16 ^ 0x2183u16) >= 7
        &&& weight(0x2EDAu16 ^ 0x2BEDu16) >= 7 && weight(0x2BEDu16 ^ 0x355Fu16) >= 7
        &&& weight(0x2BEDu16 ^ 0x3068u16) >= 7 && weight(0x2BEDu16 ^ 0x3F31u16) >= 7
        &&& weight(0x2BEDu16 ^ 0x3A06u16) >= 7 && weight(0x2BEDu16 ^ 0x24B4u16) >= 7
        &&& weight(0x2BEDu16 ^ 0x2183u16) >= 7 && weight(0x2BEDu16 ^ 0x2EDAu16) >= 7
    }) by (bit_vector);
    assert(m1 == 0 || m1 == 1 || m1 == 2 || m1 == 3 || m1 == 4 || m1 == 5 || m1 == 6 || m1 == 7);
    assert(m2 == 0 || m2 == 1 || m2 == 2 || m2 == 3 || m2 == 4 || m2 == 5 || m2 == 6 || m2 == 7);
}

/// Words of levels Q and H are at least seven bits apart.
proof fn lemma_format_distance_qh(m1: int, m2: int)
    requires
        0 <= m1 < 8,
        0 <= m2 < 8,
    ensures
        weight(format_of(ECL::Q, m1) ^ format_of(ECL::H, m2)) >= 7,
{
    assert({
        &&& weight(0x355Fu16 ^ 0x1689u16) >= 7 && weight(0x355Fu16 ^ 0x13BEu16) >= 7
        &&& weight(0x355Fu16 ^ 0x1CE7u16) >= 7 && weight(0x355Fu16 ^ 0x19D0u16) >= 7
        &&& weight(0x355Fu16 ^ 0x0762u16) >= 7 && weight(0x355Fu16 ^ 0x0255u16) >= 7
        &&& weight(0x355Fu16 ^ 0x0D0Cu16) >= 7 && weight(0x355Fu16 ^ 0x083Bu16) >= 7
        &&& weight(0x3068u16 ^ 0x1689u16) >= 7 && weight(0x3068u16 ^ 0x13BEu16) >= 7
        &&& weight(0x3068u16 ^ 0x1CE7u16) >= 7 && weight(0x3068u16 ^ 0x19D0u16) >= 7
        &&& weight(0x3068u16 ^ 0x0762u16) >= 7 && weight(0x3068u16 ^ 0x0255u16) >= 7
        &&& weight(0x3068u16 ^ 0x0D0Cu16) >= 7 && weight(0x3068u16 ^ 0x083Bu16) >= 7
        &&& weight(0x3F31u16 ^ 0x1689u16) >= 7 && weight(0x3F31u16 ^ 0x13BEu16) >= 7
        &&& weight(0x3F31u16 ^ 0x1CE7u16) >= 7 && weight(0x3F31u16 ^ 0x19D0u16) >= 7
        &&& weight(0x3F31u16 ^ 0x0762u16) >= 7 && weight(0x3F31u16 ^ 0x0255u16) >= 7
        &&& weight(0x3F31u16 ^ 0x0D0Cu16) >= 7 && weight(0x3F31u16 ^ 0x083Bu16) >= 7
        &&& weight(0x3A06u16 ^ 0x1689u16) >= 7 && weight(0x3A06u16 ^ 0x13BEu16) >= 7
        &&& weight(0x3A06u16 ^ 0x1CE7u16) >= 7 && weight(0x3A06u16 ^ 0x19D0u16) >= 7
        &&& weight(0x3A06u16 ^ 0x0762u16) >= 7 && weight(0x3A06u16 ^ 0x0255u16) >= 7
        &&& weight(0x3A06u16 ^ 0x0D0Cu16) >= 7 && weight(0x3A06u16 ^ 0x083Bu16) >= 7
        &&& weight(0x24B4u16 ^ 0x1689u16) >= 7 && weight(0x24B4u16 ^ 0x13BEu16) >= 7
        &&& weight(0x24B4u16 ^ 0x1CE7u16) >= 7 && weight(0x24B4u16 ^ 0x19D0u16) >= 7
        &&& weight(0x24B4u16 ^ 0x0762u16) >= 7 && weight(0x24B4u16 ^ 0x0255u16) >= 7
        &&& weight(0x24B4u16 ^ 0x0D0Cu16) >= 7 && weight(0x24B4u16 ^ 0x083Bu16) >= 7
        &&& weight(0x2183u16 ^ 0x1689u16) >= 7 && weight(0x2183u16 ^ 0x13BEu16) >= 7
        &&& weight(0x2183u16 ^ 0x1CE7u16) >= 7 && weight(0x2183u16 ^ 0x19D0u16) >= 7
        &&& weight(0x2183u16 ^ 0x0762u16) >= 7 && weight(0x2183u16 ^ 0x0255u16) >= 7
        &&& weight(0x2183u16 ^ 0x0D0Cu16) >= 7 && weight(0x2183u16 ^ 0x083Bu16) >= 7
        &&& weight(0x2EDAu16 ^ 0x1689u16) >= 7 && weight(0x2EDAu16 ^ 0x13BEu16) >= 7
        &&& weight(0x2EDAu16 ^ 0x1CE7u16) >= 7 && weight(0x2EDAu16 ^ 0x19D0u16) >= 7
        &&& weight(0x2EDAu16 ^ 0x0762u16) >= 7 && weight(0x2EDAu16 ^ 0x0255u16) >= 7
        &&& weight(0x2EDAu16 ^ 0x0D0Cu16) >= 7 && weight(0x2EDAu16 ^ 0x083Bu16) >= 7
        &&& weight(0x2BEDu16 ^ 0x1689u16) >= 7 && weight(0x2BEDu16 ^ 0x13BEu16) >= 7
        &&& weight(0x2BEDu16 ^ 0x1CE7u16) >= 7 && weight(0x2BEDu16 ^ 0x19D0u16) >= 7
        &&& weight(0x2BEDu16 ^ 0x0762u16) >= 7 && weight(0x2BEDu16 ^ 0x0255u16) >= 7
        &&& weight(0x2BEDu16 ^ 0x0D0Cu16) >= 7 && weight(0x2BEDu16 ^ 0x083Bu16) >= 7
    }) by (bit_vector);
    assert(m1 == 0 || m1 == 1 || m1 == 2 || m1 == 3 || m1 == 4 || m1 == 5 || m1 == 6 || m1 == 7);
    assert(m2 == 0 || m2 == 1 || m2 == 2 || m2 == 3 || m2 == 4 || m2 == 5 || m2 == 6 || m2 == 7);
}

/// Words of levels H and L are at least seven bits apart.
proof fn lemma_format_distance_hl(m1: int, m2: int)
    requires
        0 <= m1 < 8,
        0 <= m2 < 8,
    ensures
        weight(format_of(ECL::H, m1) ^ format_of(ECL::L, m2)) >= 7,
{
    assert({
        &&& weight(0x1689u16 ^ 0x77C4u16) >= 7 && weight(0x1689u16 ^ 0x72F3u16) >= 7
        &&& weight(0x1689u16 ^ 0x7DAAu16) >= 7 && weight(0x1689u16 ^ 0x789Du16) >= 7
        &&& weight(0x1689u16 ^ 0x662Fu16) >= 7 && weight(0x1689u16 ^ 0x6318u16) >= 7
        &&& weight(0x1689u16 ^ 0x6C41u16) >= 7 && weight(0x1689u16 ^ 0x6976u16) >= 7
        &&& weight(0x13BEu16 ^ 0x77C4u16) >= 7 && weight(0x13BEu16 ^ 0x72F3u16) >= 7
        &&& weight(0x13BEu16 ^ 0x7DAAu16) >= 7 && weight(0x13BEu16 ^ 0x789Du16) >= 7
        &&& weight(0x13BEu16 ^ 0x662Fu16) >= 7 && weight(0x13BEu16 ^ 0x6318u16) >= 7
        &&& weight(0x13BEu16 ^ 0x6C41u16) >= 7 && weight(0x13BEu16 ^ 0x6976u16) >= 7
        &&& weight(0x1CE7u16 ^ 0x77C4u16) >= 7 && weight(0x1CE7u16 ^ 0x72F3u16) >= 7
        &&& weight(0x1CE7u16 ^ 0x7DAAu16) >= 7 && weight(0x1CE7u16 ^ 0x789Du16) >= 7
        &&& weight(0x1CE7u16 ^ 0x662Fu16) >= 7 && weight(0x1CE7u16 ^ 0x6318u16) >= 7
        &&& weight(0x1CE7u16 ^ 0x6C41u16) >= 7 && weight(0x1CE7u16 ^ 0x6976u16) >= 7
        &&& weight(0x19D0u16 ^ 0x77C4u16) >= 7 && weight(0x19D0u16 ^ 0x72F3u16) >= 7
        &&& weight(0x19D0u16 ^ 0x7DAAu16) >= 7 && weight(0x19D0u16 ^ 0x789Du16) >= 7
        &&& weight(0x19D0u16 ^ 0x662Fu16) >= 7 && weight(0x19D0u16 ^ 0x6318u16) >= 7
        &&& weight(0x19D0u16 ^ 0x6C41u16) >= 7 && weight(0x19D0u16 ^ 0x6976u16) >= 7
        &&& weight(0x0762u16 ^ 0x77C4u16) >= 7 && weight(0x0762u16 ^ 0x72F3u16) >= 7
        &&& weight(0x0762u16 ^ 0x7DAAu16) >= 7 && weight(0x0762u16 ^ 0x789Du16) >= 7
        &&& weight(0x0762u16 ^ 0x662Fu16) >= 7 && weight(0x0762u16 ^ 0x6318u16) >= 7
        &&& weight(0x0762u16 ^ 0x6C41u16) >= 7 && weight(0x0762u16 ^ 0x6976u16) >= 7
        &&& weight(0x0255u16 ^ 0x77C4u16) >= 7 && weight(0x0255u16 ^ 0x72F3u16) >= 7
        &&& weight(0x0255u16 ^ 0x7DAAu16) >= 7 && weight(0x0255u16 ^ 0x789Du16) >= 7
        &&& weight(0x0255u16 ^ 0x662Fu16) >= 7 && weight(0x0255u16 ^ 0x6318u16) >= 7
        &&& weight(0x0255u16 ^ 0x6C41u16) >= 7 && weight(0x0255u16 ^ 0x6976u16) >= 7
        &&& weight(0x0D0Cu16 ^ 0x77C4u16) >= 7 && weight(0x0D0Cu16 ^ 0x72F3u16) >= 7
        &&& weight(0x0D0Cu16 ^ 0x7DAAu16) >= 7 && weight(0x0D0Cu16 ^ 0x789Du16) >= 7
        &&& weight(0x0D0Cu16 ^ 0x662Fu16) >= 7 && weight(0x0D0Cu16 ^ 0x6318u16) >= 7
        &&& weight(0x0D0Cu16 ^ 0x6C41u16) >= 7 && weight(0x0D0Cu16 ^ 0x6976u16) >= 7
        &&& weight(0x083Bu16 ^ 0x77C4u16) >= 7 && weight(0x083Bu16 ^ 0x72F3u16) >= 7
        &&& weight(0x083Bu16 ^ 0x7DAAu16) >= 7 && weight(0x083Bu16 ^ 0x789Du16) >= 7
        &&& weight(0x083Bu16 ^ 0x662Fu16) >= 7 && weight(0x083Bu16 ^ 0x6318u16) >= 7
        &&& weight(0x083Bu16 ^ 0x6C41u16) >= 7 && weight(0x083Bu16 ^ 0x6976u16) >= 7
    }) by (bit_vector);
    assert(m1 == 0 || m1 == 1 || m1 == 2 || m1 == 3 || m1 == 4 || m1 == 5 || m1 == 6 || m1 == 7);
    assert(m2 == 0 || m2 == 1 || m2 == 2 || m2 == 3 || m2 == 4 || m2 == 5 || m2 == 6 || m2 == 7);
}

/// Words of levels H and M are at least seven bits apart.
proof fn lemma_format_distance_hm(m1: int, m2: int)
    requires
        0 <= m1 < 8,
        0 <= m2 < 8,
    ensures
        weight(format_of(ECL::H, m1) ^ format_of(ECL::M, m2)) >= 7,
{
    assert({
        &&& weight(0x1689u16 ^ 0x5412u16) >= 7 && weight(0x1689u16 ^ 0x5125u16) >= 7
        &&& weight(0x1689u16 ^ 0x5E7Cu16) >= 7 && weight(0x1689u16 ^ 0x5B4Bu16) >= 7
        &&& weight(0x1689u16 ^ 0x45F9u16) >= 7 && weight(0x1689u16 ^ 0x40CEu16) >= 7
        &&& weight(0x1689u16 ^ 0x4F97u16) >= 7 && weight(0x1689u16 ^ 0x4AA0u16) >= 7
        &&& weight(0x13BEu16 ^ 0x5412u16) >= 7 && weight(0x13BEu16 ^ 0x5125u16) >= 7
        &&& weight(0x13BEu16 ^ 0x5E7Cu16) >= 7 && weight(0x13BEu16 ^ 0x5B4Bu16) >= 7
        &&& weight(0x13BEu16 ^ 0x45F9u16) >= 7 && weight(0x13BEu16 ^ 0x40CEu16) >= 7
        &&& weight(0x13BEu16 ^ 0x4F97u16) >= 7 && weight(0x13BEu16 ^ 0x4AA0u16) >= 7
        &&& weight(0x1CE7u16 ^ 0x5412u16) >= 7 && weight(0x1CE7u16 ^ 0x5125u16) >= 7
        &&& weight(0x1CE7u16 ^ 0x5E7Cu16) >= 7 && weight(0x1CE7u16 ^ 0x5B4Bu16) >= 7
        &&& weight(0x1CE7u16 ^ 0x45F9u16) >= 7 && weight(0x1CE7u16 ^ 0x40CEu16) >= 7
        &&& weight(0x1CE7u16 ^ 0x4F97u16) >= 7 && weight(0x1CE7u16 ^ 0x4AA0u16) >= 7
        &&& weight(0x19D0u16 ^ 0x5412u16) >= 7 && weight(0x19D0u16 ^ 0x5125u16) >= 7
        &&& weight(0x19D0u16 ^ 0x5E7Cu16) >= 7 && weight(0x19D0u16 ^ 0x5B4Bu16) >= 7
        &&& weight(0x19D0u16 ^ 0x45F9u16) >= 7 && weight(0x19D0u16 ^ 0x40CEu16) >= 7
        &&& weight(0x19D0u16 ^ 0x4F97u16) >= 7 && weight(0x19D0u16 ^ 0x4AA0u16) >= 7
        &&& weight(0x0762u16 ^ 0x5412u16) >= 7 && weight(0x0762u16 ^ 0x5125u16) >= 7
        &&& weight(0x0762u16 ^ 0x5E7Cu16) >= 7 && weight(0x0762u16 ^ 0x5B4Bu16) >= 7
        &&& weight(0x0762u16 ^ 0x45F9u16) >= 7 && weight(0x0762u16 ^ 0x40CEu16) >= 7
        &&& weight(0x0762u16 ^ 0x4F97u16) >= 7 && weight(0x0762u16 ^ 0x4AA0u16) >= 7
        &&& weight(0x0255u16 ^ 0x5412u16) >= 7 && weight(0x0255u16 ^ 0x5125u16) >= 7
        &&& weight(0x0255u16 ^ 0x5E7Cu16) >= 7 && weight(0x0255u16 ^ 0x5B4Bu16) >= 7
        &&& weight(0x0255u16 ^ 0x45F9u16) >= 7 && weight(0x0255u16 ^ 0x40CEu16) >= 7
        &&& weight(0x0255u16 ^ 0x4F97u16) >= 7 && weight(0x0255u16 ^ 0x4AA0u16) >= 7
        &&& weight(0x0D0Cu16 ^ 0x5412u16) >= 7 && weight(0x0D0Cu16 ^ 0x5125u16) >= 7
        &&& weight(0x0D0Cu16 ^ 0x5E7Cu16) >= 7 && weight(0x0D0Cu16 ^ 0x5B4Bu16) >= 7
        &&& weight(0x0D0Cu16 ^ 0x45F9u16) >= 7 && weight(0x0D0Cu16 ^ 0x40CEu16) >= 7
        &&& weight(0x0D0Cu16 ^ 0x4F97u16) >= 7 && weight(0x0D0Cu16 ^ 0x4AA0u16) >= 7
        &&& weight(0x083Bu16 ^ 0x5412u16) >= 7 && weight(0x083Bu16 ^ 0x5125u16) >= 7
        &&& weight(0x083Bu16 ^ 0x5E7Cu16) >= 7 && weight(0x083Bu16 ^ 0x5B4Bu16) >= 7
        &&& weight(0x083Bu16 ^ 0x45F9u16) >= 7 && weight(0x083Bu16 ^ 0x40CEu16) >= 7
        &&& weight(0x083Bu16 ^ 0x4F97u16) >= 7 && weight(0x083Bu16 ^ 0x4AA0u16) >= 7
    }) by (bit_vector);
    assert(m1 == 0 || m1 == 1 || m1 == 2 || m1 == 3 || m1 == 4 || m1 == 5 || m1 == 6 || m1 == 7);
    assert(m2 == 0 || m2 == 1 || m2 == 2 || m2 == 3 || m2 == 4 || m2 == 5 || m2 == 6 || m2 == 7);
}

/// Words of levels H and Q are at least seven bits apart.
proof fn lemma_format_distance_hq(m1: int, m2: int)
    requires
        0 <= m1 < 8,
        0 <= m2 < 8,
    ensures
        weight(format_of(ECL::H, m1) ^ format_of(ECL::Q, m2)) >= 7,
{
    assert({
        &&& weight(0x1689u16 ^ 0x355Fu16) >= 7 && weight(0x1689u16 ^ 0x3068u16) >= 7
        &&& weight(0x1689u16 ^ 0x3F31u16) >= 7 && weight(0x1689u16 ^ 0x3A06u16) >= 7
        &&& weight(0x1689u16 ^ 0x24B4u16) >= 7 && weight(0x1689u16 ^ 0x2183u16) >= 7
        &&& weight(0x1689u16 ^ 0x2EDAu16) >= 7 && weight(0x1689u16 ^ 0x2BEDu16) >= 7
        &&& weight(0x13BEu16 ^ 0x355Fu16) >= 7 && weight(0x13BEu16 ^ 0x3068u16) >= 7
        &&& weight(0x13BEu16 ^ 0x3F31u16) >= 7 && weight(0x13BEu16 ^ 0x3A06u16) >= 7
        &&& weight(0x13BEu16 ^ 0x24B4u16) >= 7 && weight(0x13BEu16 ^ 0x2183u16) >= 7
        &&& weight(0x13BEu16 ^ 0x2EDAu16) >= 7 && weight(0x13BEu16 ^ 0x2BEDu16) >= 7
        &&& weight(0x1CE7u16 ^ 0x355Fu16) >= 7 && weight(0x1CE7u16 ^ 0x3068u16) >= 7
        &&& weight(0x1CE7u16 ^ 0x3F31u16) >= 7 && weight(0x1CE7u16 ^ 0x3A06u16) >= 7
        &&& weight(0x1CE7u16 ^ 0x24B4u16) >= 7 && weight(0x1CE7u16 ^ 0x2183u16) >= 7
        &&& weight(0x1CE7u16 ^ 0x2EDAu16) >= 7 && weight(0x1CE7u16 ^ 0x2BEDu16) >= 7
        &&& weight(0x19D0u16 ^ 0x355Fu16) >= 7 && weight(0x19D0u16 ^ 0x3068u16) >= 7
        &&& weight(0x19D0u16 ^ 0x3F31u16) >= 7 && weight(0x19D0u16 ^ 0x3A06u16) >= 7
        &&& weight(0x19D0u16 ^ 0x24B4u16) >= 7 && weight(0x19D0u16 ^ 0x2183u16) >= 7
        &&& weight(0x19D0u16 ^ 0x2EDAu16) >= 7 && weight(0x19D0u16 ^ 0x2BEDu16) >= 7
        &&& weight(0x0762u16 ^ 0x355Fu16) >= 7 && weight(0x0762u16 ^ 0x3068u16) >= 7
        &&& weight(0x0762u16 ^ 0x3F31u16) >= 7 && weight(0x0762u16 ^ 0x3A06u16) >= 7
        &&& weight(0x0762u16 ^ 0x24B4u16) >= 7 && weight(0x0762u16 ^ 0x2183u16) >= 7
        &&& weight(0x0762u16 ^ 0x2EDAu16) >= 7 && weight(0x0762u16 ^ 0x2BEDu16) >= 7
        &&& weight(0x0255u16 ^ 0x355Fu16) >= 7 && weight(0x0255u16 ^ 0x3068u16) >= 7
        &&& weight(0x0255u16 ^ 0x3F31u16) >= 7 && weight(0x0255u16 ^ 0x3A06u16) >= 7
        &&& weight(0x0255u16 ^ 0x24B4u16) >= 7 && weight(0x0255u16 ^ 0x2183u16) >= 7
        &&& weight(0x0255u16 ^ 0x2EDAu16) >= 7 && weight(0x0255u16 ^ 0x2BEDu16) >= 7
        &&& weight(0x0D0Cu16 ^ 0x355Fu16) >= 7 && weight(0x0D0Cu16 ^ 0x3068u16) >= 7
        &&& weight(0x0D0Cu16 ^ 0x3F31u16) >= 7 && weight(0x0D0Cu16 ^ 0x3A06u16) >= 7
        &&& weight(0x0D0Cu16 ^ 0x24B4u16) >= 7 && weight(0x0D0Cu16 ^ 0x2183u16) >= 7
        &&& weight(0x0D0Cu16 ^ 0x2EDAu16) >= 7 && weight(0x0D0Cu16 ^ 0x2BEDu16) >= 7
        &&& weight(0x083Bu16 ^ 0x355Fu16) >= 7 && weight(0x083Bu16 ^ 0x3068u16) >= 7
        &&& weight(0x083Bu16 ^ 0x3F31u16) >= 7 && weight(0x083Bu16 ^ 0x3A06u16) >= 7
        &&& weight(0x083Bu16 ^ 0x24B4u16) >= 7 && weight(0x083Bu16 ^ 0x2183u16) >= 7
        &&& weight(0x083Bu16 ^ 0x2EDAu16) >= 7 && weight(0x083Bu16 ^ 0x2BEDu16) >= 7
    }) by (bit_vector);
    assert(m1 == 0 || m1 == 1 || m1 == 2 || m1 == 3 || m1 == 4 || m1 == 5 || m1 == 6 || m1 == 7);
    assert(m2 == 0 || m2 == 1 || m2 == 2 || m2 == 3 || m2 == 4 || m2 == 5 || m2 == 6 || m2 == 7);
}

/// Words of levels H and H are at least seven bits apart.
proof fn lemma_format_distance_hh(m1: int, m2: int)
    requires
        0 <= m1 < 8,
        0 <= m2 < 8,
        m1 != m2,
    ensures
        weight(format_of(ECL::H, m1) ^ format_of(ECL::H, m2)) >= 7,
{
    assert({
        &&& weight(0x1689u16 ^ 0x13BEu16) >= 7 && weight(0x1689u16 ^ 0x1CE7u16) >= 7
        &&& weight(0x1689u16 ^ 0x19D0u16) >= 7 && weight(0x1689u16 ^ 0x0762u16) >= 7
        &&& weight(0x1689u16 ^ 0x0255u16) >= 7 && weight(0x1689u16 ^ 0x0D0Cu16) >= 7
        &&& weight(0x1689u16 ^ 0x083Bu16) >= 7 && weight(0x13BEu16 ^ 0x1689u16) >= 7
        &&& weight(0x13BEu16 ^ 0x1CE7u16) >= 7 && weight(0x13BEu16 ^ 0x19D0u16) >= 7
        &&& weight(0x13BEu16 ^ 0x0762u16) >= 7 && weight(0x13BEu16 ^ 0x0255u16) >= 7
        &&& weight(0x13BEu16 ^ 0x0D0Cu16) >= 7 && weight(0x13BEu16 ^ 0x083Bu16) >= 7
        &&& weight(0x1CE7u16 ^ 0x1689u16) >= 7 && weight(0x1CE7u16 ^ 0x13BEu16) >= 7
        &&& weight(0x1CE7u16 ^ 0x19D0u16) >= 7 && weight(0x1CE7u16 ^ 0x0762u16) >= 7
        &&& weight(0x1CE7u16 ^ 0x0255u16) >= 7 && weight(0x1CE7u16 ^ 0x0D0Cu16) >= 7
        &&& weight(0x1CE7u16 ^ 0x083Bu16) >= 7 && weight(0x19D0u16 ^ 0x1689u16) >= 7
        &&& weight(0x19D0u16 ^ 0x13BEu16) >= 7 && weight(0x19D0u16 ^ 0x1CE7u16) >= 7
        &&& weight(0x19D0u16 ^ 0x0762u16) >= 7 && weight(0x19D0u16 ^ 0x0255u16) >= 7
        &&& weight(0x19D0u16 ^ 0x0D0Cu16) >= 7 && weight(0x19D0u16 ^ 0x083Bu16) >= 7
        &&& weight(0x0762u16 ^ 0x1689u16) >= 7 && weight(0x0762u16 ^ 0x13BEu16) >= 7
        &&& weight(0x0762u16 ^ 0x1CE7u16) >= 7 && weight(0x0762u16 ^ 0x19D0u16) >= 7
        &&& weight(0x0762u16 ^ 0x0255u16) >= 7 && weight(0x0762u16 ^ 0x0D0Cu16) >= 7
        &&& weight(0x0762u16 ^ 0x083Bu16) >= 7 && weight(0x0255u16 ^ 0x1689u16) >= 7
        &&& weight(0x0255u16 ^ 0x13BEu16) >= 7 && weight(0x0255u16 ^ 0x1CE7u16) >= 7
        &&& weight(0x0255u16 ^ 0x19D0u16) >= 7 && weight(0x0255u16 ^ 0x0762u16) >= 7
        &&& weight(0x0255u16 ^ 0x0D0Cu16) >= 7 && weight(0x0255u16 ^ 0x083Bu16) >= 7
        &&& weight(0x0D0Cu16 ^ 0x1689u16) >= 7 && weight(0x0D0Cu16 ^ 0x13BEu16) >= 7
        &&& weight(0x0D0Cu16 ^ 0x1CE7u16) >= 7 && weight(0x0D0Cu16 ^ 0x19D0u16) >= 7
        &&& weight(0x0D0Cu16 ^ 0x0762u16) >= 7 && weight(0x0D0Cu16 ^ 0x0255u16) >= 7
        &&& weight(0x0D0Cu16 ^ 0x083Bu16) >= 7 && weight(0x083Bu16 ^ 0x1689u16) >= 7
        &&& weight(0x083Bu16 ^ 0x13BEu16) >= 7 && weight(0x083Bu16 ^ 0x1CE7u16) >= 7
        &&& weight(0x083Bu16 ^ 0x19D0u16) >= 7 && weight(0x083Bu16 ^ 0x0762u16) >= 7
        &&& weight(0x083Bu16 ^ 0x0255u16) >= 7 && weight(0x083Bu16 ^ 0x0D0Cu16) >= 7
    }) by (bit_vector);
    assert(m1 == 0 || m1 == 1 || m1 == 2 || m1 == 3 || m1 == 4 || m1 == 5 || m1 == 6 || m1 == 7);
    assert(m2 == 0 || m2 == 1 || m2 == 2 || m2 == 3 || m2 == 4 || m2 == 5 || m2 == 6 || m2 == 7);
}

} // verus!
