//! Tables of the standard keyed by symbol version: block layout, capacity,
//! character count widths, generator polynomials, format information and the
//! scores of two masking penalty rules.

use vstd::prelude::*;
use crate::encode::Mode;
use crate::format_code::{lemma_format_fields, level_bits};
use crate::generators::{generator, generator_spec};
use crate::polynomials::{block_count, block_total, interleaved, lemma_interleaved_len};
use crate::vecl::{ECL, databits_table, ect_table, groups_table, unpacked};
use crate::version::Version;

verus! {

/// Block layout of each version at level L: `[(g1_count, g1_size), (g2_count, g2_size)]`.
pub const GROUPS_L: [[(usize, usize); 2]; 40] = [
    [(1, 19), (0, 0)],
    [(1, 34), (0, 0)],
    [(1, 55), (0, 0)],
    [(1, 80), (0, 0)],
    [(1, 108), (0, 0)],
    [(2, 68), (0, 0)],
    [(2, 78), (0, 0)],
    [(2, 97), (0, 0)],
    [(2, 116), (0, 0)],
    [(2, 68), (2, 69)],
    [(4, 81), (0, 0)],
    [(2, 92), (2, 93)],
    [(4, 107), (0, 0)],
    [(3, 115), (1, 116)],
    [(5, 87), (1, 88)],
    [(5, 98), (1, 99)],
    [(1, 107), (5, 108)],
    [(5, 120), (1, 121)],
    [(3, 113), (4, 114)],
    [(3, 107), (5, 108)],
    [(4, 116), (4, 117)],
    [(2, 111), (7, 112)],
    [(4, 121), (5, 122)],
    [(6, 117), (4, 118)],
    [(8, 106), (4, 107)],
    [(10, 114), (2, 115)],
    [(8, 122), (4, 123)],
    [(3, 117), (10, 118)],
    [(7, 116), (7, 117)],
    [(5, 115), (10, 116)],
    [(13, 115), (3, 116)],
    [(17, 115), (0, 0)],
    [(17, 115), (1, 116)],
    [(13, 115), (6, 116)],
    [(12, 121), (7, 122)],
    [(6, 121), (14, 122)],
    [(17, 122), (4, 123)],
    [(4, 122), (18, 123)],
    [(20, 117), (4, 118)],
    [(19, 118), (6, 119)],
];

/// Block layout of each version at level M: `[(g1_count, g1_size), (g2_count, g2_size)]`.
pub const GROUPS_M: [[(usize, usize); 2]; 40] = [
    [(1, 16), (0, 0)],
    [(1, 28), (0, 0)],
    [(1, 44), (0, 0)],
    [(2, 32), (0, 0)],
    [(2, 43), (0, 0)],
    [(4, 27), (0, 0)],
    [(4, 31), (0, 0)],
    [(2, 38), (2, 39)],
    [(3, 36), (2, 37)],
    [(4, 43), (1, 44)],
    [(1, 50), (4, 51)],
    [(6, 36), (2, 37)],
    [(8, 37), (1, 38)],
    [(4, 40), (5, 41)],
    [(5, 41), (5, 42)],
    [(7, 45), (3, 46)],
    [(10, 46), (1, 47)],
    [(9, 43), (4, 44)],
    [(3, 44), (11, 45)],
    [(3, 41), (13, 42)],
    [(17, 42), (0, 0)],
    [(17, 46), (0, 0)],
    [(4, 47), (14, 48)],
    [(6, 45), (14, 46)],
    [(8, 47), (13, 48)],
    [(19, 46), (4, 47)],
    [(22, 45), (3, 46)],
    [(3, 45), (23, 46)],
    [(21, 45), (7, 46)],
    [(19, 47), (10, 48)],
    [(2, 46), (29, 47)],
    [(10, 46), (23, 47)],
    [(14, 46), (21, 47)],
    [(14, 46), (23, 47)],
    [(12, 47), (26, 48)],
    [(6, 47), (34, 48)],
    [(29, 46), (14, 47)],
    [(13, 46), (32, 47)],
    [(40, 47), (7, 48)],
    [(18, 47), (31, 48)],
];

/// Block layout of each version at level Q: `[(g1_count, g1_size), (g2_count, g2_size)]`.
pub const GROUPS_Q: [[(usize, usize); 2]; 40] = [
    [(1, 13), (0, 0)],
    [(1, 22), (0, 0)],
    [(2, 17), (0, 0)],
    [(2, 24), (0, 0)],
    [(2, 15), (2, 16)],
    [(4, 19), (0, 0)],
    [(2, 14), (4, 15)],
    [(4, 18), (2, 19)],
    [(4, 16), (4, 17)],
    [(6, 19), (2, 20)],
    [(4, 22), (4, 23)],
    [(4, 20), (6, 21)],
    [(8, 20), (4, 21)],
    [(11, 16), (5, 17)],
    [(5, 24), (7, 25)],
    [(15, 19), (2, 20)],
    [(1, 22), (15, 23)],
    [(17, 22), (1, 23)],
    [(17, 21), (4, 22)],
    [(15, 24), (5, 25)],
    [(17, 22), (6, 23)],
    [(7, 24), (16, 25)],
    [(11, 24), (14, 25)],
    [(11, 24), (16, 25)],
    [(7, 24), (22, 25)],
    [(28, 22), (6, 23)],
    [(8, 23), (26, 24)],
    [(4, 24), (31, 25)],
    [(1, 23), (37, 24)],
    [(15, 24), (25, 25)],
    [(42, 24), (1, 25)],
    [(10, 24), (35, 25)],
    [(29, 24), (19, 25)],
    [(44, 24), (7, 25)],
    [(39, 24), (14, 25)],
    [(46, 24), (10, 25)],
    [(49, 24), (10, 25)],
    [(48, 24), (14, 25)],
    [(43, 24), (22, 25)],
    [(34, 24), (34, 25)],
];

/// Block layout of each version at level H: `[(g1_count, g1_size), (g2_count, g2_size)]`.
pub const GROUPS_H: [[(usize, usize); 2]; 40] = [
    [(1, 9), (0, 0)],
    [(1, 16), (0, 0)],
    [(2, 13), (0, 0)],
    [(4, 9), (0, 0)],
    [(2, 11), (2, 12)],
    [(4, 15), (0, 0)],
    [(4, 13), (1, 14)],
    [(4, 14), (2, 15)],
    [(4, 12), (4, 13)],
    [(6, 15), (2, 16)],
    [(3, 12), (8, 13)],
    [(7, 14), (4, 15)],
    [(12, 11), (4, 12)],
    [(11, 12), (5, 13)],
    [(11, 12), (7, 13)],
    [(3, 15), (13, 16)],
    [(2, 14), (17, 15)],
    [(2, 14), (19, 15)],
    [(9, 13), (16, 14)],
    [(15, 15), (10, 16)],
    [(19, 16), (6, 17)],
    [(34, 13), (0, 0)],
    [(16, 15), (14, 16)],
    [(30, 16), (2, 17)],
    [(22, 15), (13, 16)],
    [(33, 16), (4, 17)],
    [(12, 15), (28, 16)],
    [(11, 15), (31, 16)],
    [(19, 15), (26, 16)],
    [(23, 15), (25, 16)],
    [(23, 15), (28, 16)],
    [(19, 15), (35, 16)],
    [(11, 15), (46, 16)],
    [(59, 16), (1, 17)],
    [(22, 15), (41, 16)],
    [(2, 15), (64, 16)],
    [(24, 15), (46, 16)],
    [(42, 15), (32, 16)],
    [(10, 15), (67, 16)],
    [(20, 15), (61, 16)],
];

/// Block layout of `version` at level `quality`.
pub open spec fn groups_of(quality: ECL, version: Version) -> [(usize, usize); 2] {
    let i = version.index_of();
    match quality {
        ECL::L => GROUPS_L@[i],
        ECL::M => GROUPS_M@[i],
        ECL::Q => GROUPS_Q@[i],
        ECL::H => GROUPS_H@[i],
    }
}

/// Block layout of `version` at level `quality`: `[(g1_count, g1_size), (g2_count, g2_size)]`.
/// A group with no blocks has count 0.
pub fn ecc_to_groups(quality: ECL, version: Version) -> (r: [(usize, usize); 2])
    ensures
        r == groups_of(quality, version),
{
    let i = version.index();
    match quality {
        ECL::L => GROUPS_L[i],
        ECL::M => GROUPS_M[i],
        ECL::Q => GROUPS_Q[i],
        ECL::H => GROUPS_H[i],
    }
}

/// Format information words at level L, by mask number.
pub const FORMAT_L: [u16; 8] = [
    0b111011111000100,
    0b111001011110011,
    0b111110110101010,
    0b111100010011101,
    0b110011000101111,
    0b110001100011000,
    0b110110001000001,
    0b110100101110110,
];

/// Format information words at level M, by mask number.
pub const FORMAT_M: [u16; 8] = [
    0b101010000010010,
    0b101000100100101,
    0b101111001111100,
    0b101101101001011,
    0b100010111111001,
    0b100000011001110,
    0b100111110010111,
    0b100101010100000,
];

/// Format information words at level Q, by mask number.
pub const FORMAT_Q: [u16; 8] = [
    0b011010101011111,
    0b011000001101000,
    0b011111100110001,
    0b011101000000110,
    0b010010010110100,
    0b010000110000011,
    0b010111011011010,
    0b010101111101101,
];

/// Format information words at level H, by mask number.
pub const FORMAT_H: [u16; 8] = [
    0b001011010001001,
    0b001001110111110,
    0b001110011100111,
    0b001100111010000,
    0b000011101100010,
    0b000001001010101,
    0b000110100001100,
    0b000100000111011,
];

/// Format information word of level `quality` with mask `mask_nb`.
pub open spec fn format_of(quality: ECL, mask_nb: int) -> u16 {
    match quality {
        ECL::L => FORMAT_L@[mask_nb],
        ECL::M => FORMAT_M@[mask_nb],
        ECL::Q => FORMAT_Q@[mask_nb],
        ECL::H => FORMAT_H@[mask_nb],
    }
}

/// The 15-bit format information word for level `quality` and mask `mask_nb`.
pub fn ecm_to_format_information(quality: ECL, mask_nb: usize) -> (r: u16)
    requires
        mask_nb < 8,
    ensures
        r == format_of(quality, mask_nb as int),
        r < 0x8000,
        ((r ^ 0x5412) >> 10) as int == level_bits(quality) as int * 8 + mask_nb,
{
    proof {
        lemma_format_fields(quality, mask_nb as int);
    }
    match quality {
        ECL::L => FORMAT_L[mask_nb],
        ECL::M => FORMAT_M[mask_nb],
        ECL::Q => FORMAT_Q[mask_nb],
        ECL::H => FORMAT_H[mask_nb],
    }
}

/// Data codewords of each version at level L.
pub const DATA_CODEWORDS_L: [u16; 40] = [
    19, 34, 55, 80, 108, 136, 156, 194, 232, 274, 324, 370, 428, 461, 523, 589, 647, 721, 795,
    861, 932, 1006, 1094, 1174, 1276, 1370, 1468, 1531, 1631, 1735, 1843, 1955, 2071, 2191,
    2306, 2434, 2566, 2702, 2812, 2956,
];

/// Data codewords of each version at level M.
pub const DATA_CODEWORDS_M: [u16; 40] = [
    16, 28, 44, 64, 86, 108, 124, 154, 182, 216, 254, 290, 334, 365, 415, 453, 507, 563, 627,
    669, 714, 782, 860, 914, 1000, 1062, 1128, 1193, 1267, 1373, 1455, 1541, 1631, 1725, 1812,
    1914, 1992, 2102, 2216, 2334,
];

/// Data codewords of each version at level Q.
pub const DATA_CODEWORDS_Q: [u16; 40] = [
    13, 22, 34, 48, 62, 76, 88, 110, 132, 154, 180, 206, 244, 261, 295, 325, 367, 397, 445,
    485, 512, 568, 614, 664, 718, 754, 808, 871, 911, 985, 1033, 1115, 1171, 1231, 1286, 1354,
    1426, 1502, 1582, 1666,
];

/// Data codewords of each version at level H.
pub const DATA_CODEWORDS_H: [u16; 40] = [
    9, 16, 26, 36, 46, 60, 66, 86, 100, 122, 140, 158, 180, 197, 223, 253, 283, 313, 341, 385,
    406, 442, 464, 514, 538, 596, 628, 661, 701, 745, 793, 845, 901, 961, 986, 1054, 1096,
    1142, 1222, 1276,
];

/// Data codewords that `version` holds at level `ecl`.
pub open spec fn data_codewords_of(version: Version, ecl: ECL) -> int {
    let i = version.index_of();
    match ecl {
        ECL::L => DATA_CODEWORDS_L@[i] as int,
        ECL::M => DATA_CODEWORDS_M@[i] as int,
        ECL::Q => DATA_CODEWORDS_Q@[i] as int,
        ECL::H => DATA_CODEWORDS_H@[i] as int,
    }
}

/// Number of data codewords of `version` at level `ecl`.
pub fn data_codewords(version: Version, ecl: ECL) -> (r: usize)
    ensures
        r == data_codewords_of(version, ecl),
{
    let i = version.index();
    match ecl {
        ECL::L => DATA_CODEWORDS_L[i] as usize,
        ECL::M => DATA_CODEWORDS_M[i] as usize,
        ECL::Q => DATA_CODEWORDS_Q[i] as usize,
        ECL::H => DATA_CODEWORDS_H[i] as usize,
    }
}

/// Number of data bits of `version` at level `ecl`.
pub fn data_bits(version: Version, ecl: ECL) -> (r: usize)
    ensures
        r == 8 * data_codewords_of(version, ecl),
{
    let n = data_codewords(version, ecl);
    proof {
        lemma_data_codewords_bound(version, ecl);
    }
    n * 8
}

/// No version holds more than 2956 data codewords.
proof fn lemma_data_codewords_bound(version: Version, ecl: ECL)
    ensures
        data_codewords_of(version, ecl) <= 2956,
{
}

/// Width in bits of the character count indicator: it grows at versions 10
/// and 27.
pub open spec fn cci_bits_of(version: Version, mode: Mode) -> int {
    let band = if version.index_of() < 9 {
        0int
    } else if version.index_of() < 26 {
        1int
    } else {
        2int
    };
    match mode {
        Mode::Numeric => 10 + 2 * band,
        Mode::Alphanumeric => 9 + 2 * band,
        Mode::Byte => if band == 0 {
            8
        } else {
            16
        },
    }
}

/// Number of bits of the character count indicator of `mode` in `version`.
pub fn cci_bits(version: Version, mode: Mode) -> (r: usize)
    ensures
        r == cci_bits_of(version, mode),
{
    let i = version.index();
    let band: usize = if i < 9 {
        0
    } else if i < 26 {
        1
    } else {
        2
    };
    match mode {
        Mode::Numeric => 10 + 2 * band,
        Mode::Alphanumeric => 9 + 2 * band,
        Mode::Byte => if band == 0 {
            8
        } else {
            16
        },
    }
}

/// Generator polynomial with which the blocks of `version` at level `ecl` are
/// divided: the one of degree `ecc_to_ect(ecl, version)`.
pub fn get_polynomial(version: Version, ecl: ECL) -> (r: &'static [u8])
    ensures
        r@ == generator_spec(ect_table(ecl)[version.index_of() + 1]),
        r@.len() == ect_table(ecl)[version.index_of() + 1] + 1,
{
    let n = crate::vecl::ecc_to_ect(ecl, version.index() + 1);
    generator(n)
}

/// The blocks of both groups together hold exactly the data codewords of the
/// version: `g1_count * g1_size + g2_count * g2_size == data_codewords`.
pub proof fn lemma_groups_hold_data(quality: ECL, version: Version)
    ensures
        block_total(groups_of(quality, version)) == data_codewords_of(version, quality),
{
    match quality {
        ECL::L => lemma_groups_hold_data_l(version),
        ECL::M => lemma_groups_hold_data_m(version),
        ECL::Q => lemma_groups_hold_data_q(version),
        ECL::H => lemma_groups_hold_data_h(version),
    }
}

/// The blocks hold the data codewords at level L, version by version.
#[verifier::nonlinear]
proof fn lemma_groups_hold_data_l(version: Version)
    ensures
        block_total(groups_of(ECL::L, version)) == data_codewords_of(version, ECL::L),
{
    match version {
        Version::V01 => {},
        Version::V02 => {},
        Version::V03 => {},
        Version::V04 => {},
        Version::V05 => {},
        Version::V06 => {},
        Version::V07 => {},
        Version::V08 => {},
        Version::V09 => {},
        Version::V10 => {},
        Version::V11 => {},
        Version::V12 => {},
        Version::V13 => {},
        Version::V14 => {},
        Version::V15 => {},
        Version::V16 => {},
        Version::V17 => {},
        Version::V18 => {},
        Version::V19 => {},
        Version::V20 => {},
        Version::V21 => {},
        Version::V22 => {},
        Version::V23 => {},
        Version::V24 => {},
        Version::V25 => {},
        Version::V26 => {},
        Version::V27 => {},
        Version::V28 => {},
        Version::V29 => {},
        Version::V30 => {},
        Version::V31 => {},
        Version::V32 => {},
        Version::V33 => {},
        Version::V34 => {},
        Version::V35 => {},
        Version::V36 => {},
        Version::V37 => {},
        Version::V38 => {},
        Version::V39 => {},
        Version::V40 => {},
    }
}

/// The blocks hold the data codewords at level M, version by version.
#[verifier::nonlinear]
proof fn lemma_groups_hold_data_m(version: Version)
    ensures
        block_total(groups_of(ECL::M, version)) == data_codewords_of(version, ECL::M),
{
    match version {
        Version::V01 => {},
        Version::V02 => {},
        Version::V03 => {},
        Version::V04 => {},
        Version::V05 => {},
        Version::V06 => {},
        Version::V07 => {},
        Version::V08 => {},
        Version::V09 => {},
        Version::V10 => {},
        Version::V11 => {},
        Version::V12 => {},
        Version::V13 => {},
        Version::V14 => {},
        Version::V15 => {},
        Version::V16 => {},
        Version::V17 => {},
        Version::V18 => {},
        Version::V19 => {},
        Version::V20 => {},
        Version::V21 => {},
        Version::V22 => {},
        Version::V23 => {},
        Version::V24 => {},
        Version::V25 => {},
        Version::V26 => {},
        Version::V27 => {},
        Version::V28 => {},
        Version::V29 => {},
        Version::V30 => {},
        Version::V31 => {},
        Version::V32 => {},
        Version::V33 => {},
        Version::V34 => {},
        Version::V35 => {},
        Version::V36 => {},
        Version::V37 => {},
        Version::V38 => {},
        Version::V39 => {},
        Version::V40 => {},
    }
}

/// The blocks hold the data codewords at level Q, version by version.
#[verifier::nonlinear]
proof fn lemma_groups_hold_data_q(version: Version)
    ensures
        block_total(groups_of(ECL::Q, version)) == data_codewords_of(version, ECL::Q),
{
    match version {
        Version::V01 => {},
        Version::V02 => {},
        Version::V03 => {},
        Version::V04 => {},
        Version::V05 => {},
        Version::V06 => {},
        Version::V07 => {},
        Version::V08 => {},
        Version::V09 => {},
        Version::V10 => {},
        Version::V11 => {},
        Version::V12 => {},
        Version::V13 => {},
        Version::V14 => {},
        Version::V15 => {},
        Version::V16 => {},
        Version::V17 => {},
        Version::V18 => {},
        Version::V19 => {},
        Version::V20 => {},
        Version::V21 => {},
        Version::V22 => {},
        Version::V23 => {},
        Version::V24 => {},
        Version::V25 => {},
        Version::V26 => {},
        Version::V27 => {},
        Version::V28 => {},
        Version::V29 => {},
        Version::V30 => {},
        Version::V31 => {},
        Version::V32 => {},
        Version::V33 => {},
        Version::V34 => {},
        Version::V35 => {},
        Version::V36 => {},
        Version::V37 => {},
        Version::V38 => {},
        Version::V39 => {},
        Version::V40 => {},
    }
}

/// The blocks hold the data codewords at level H, version by version.
#[verifier::nonlinear]
proof fn lemma_groups_hold_data_h(version: Version)
    ensures
        block_total(groups_of(ECL::H, version)) == data_codewords_of(version, ECL::H),
{
    match version {
        Version::V01 => {},
        Version::V02 => {},
        Version::V03 => {},
        Version::V04 => {},
        Version::V05 => {},
        Version::V06 => {},
        Version::V07 => {},
        Version::V08 => {},
        Version::V09 => {},
        Version::V10 => {},
        Version::V11 => {},
        Version::V12 => {},
        Version::V13 => {},
        Version::V14 => {},
        Version::V15 => {},
        Version::V16 => {},
        Version::V17 => {},
        Version::V18 => {},
        Version::V19 => {},
        Version::V20 => {},
        Version::V21 => {},
        Version::V22 => {},
        Version::V23 => {},
        Version::V24 => {},
        Version::V25 => {},
        Version::V26 => {},
        Version::V27 => {},
        Version::V28 => {},
        Version::V29 => {},
        Version::V30 => {},
        Version::V31 => {},
        Version::V32 => {},
        Version::V33 => {},
        Version::V34 => {},
        Version::V35 => {},
        Version::V36 => {},
        Version::V37 => {},
        Version::V38 => {},
        Version::V39 => {},
        Version::V40 => {},
    }
}

/// The tables keyed by version number (in `vecl`) agree with those keyed by
/// `Version`: the same block layout, and eight data bits per data codeword.
pub proof fn lemma_tables_agree(quality: ECL, version: Version)
    ensures
        unpacked(groups_table(quality)[version.index_of() + 1]) == groups_of(quality, version),
        databits_table(quality)[version.index_of() + 1] == 8 * data_codewords_of(version, quality),
{
    match quality {
        ECL::L => lemma_tables_agree_l(version),
        ECL::M => lemma_tables_agree_m(version),
        ECL::Q => lemma_tables_agree_q(version),
        ECL::H => lemma_tables_agree_h(version),
    }
}

/// The two kinds of tables agree at level L, version by version.
#[verifier::rlimit(60)]
proof fn lemma_tables_agree_l(version: Version)
    ensures
        unpacked(groups_table(ECL::L)[version.index_of() + 1]) == groups_of(ECL::L, version),
        databits_table(ECL::L)[version.index_of() + 1] == 8 * data_codewords_of(version, ECL::L),
{
    match version {
        Version::V01 => {},
        Version::V02 => {},
        Version::V03 => {},
        Version::V04 => {},
        Version::V05 => {},
        Version::V06 => {},
        Version::V07 => {},
        Version::V08 => {},
        Version::V09 => {},
        Version::V10 => {},
        Version::V11 => {},
        Version::V12 => {},
        Version::V13 => {},
        Version::V14 => {},
        Version::V15 => {},
        Version::V16 => {},
        Version::V17 => {},
        Version::V18 => {},
        Version::V19 => {},
        Version::V20 => {},
        Version::V21 => {},
        Version::V22 => {},
        Version::V23 => {},
        Version::V24 => {},
        Version::V25 => {},
        Version::V26 => {},
        Version::V27 => {},
        Version::V28 => {},
        Version::V29 => {},
        Version::V30 => {},
        Version::V31 => {},
        Version::V32 => {},
        Version::V33 => {},
        Version::V34 => {},
        Version::V35 => {},
        Version::V36 => {},
        Version::V37 => {},
        Version::V38 => {},
        Version::V39 => {},
        Version::V40 => {},
    }
}

/// The two kinds of tables agree at level M, version by version.
#[verifier::rlimit(60)]
proof fn lemma_tables_agree_m(version: Version)
    ensures
        unpacked(groups_table(ECL::M)[version.index_of() + 1]) == groups_of(ECL::M, version),
        databits_table(ECL::M)[version.index_of() + 1] == 8 * data_codewords_of(version, ECL::M),
{
    match version {
        Version::V01 => {},
        Version::V02 => {},
        Version::V03 => {},
        Version::V04 => {},
        Version::V05 => {},
        Version::V06 => {},
        Version::V07 => {},
        Version::V08 => {},
        Version::V09 => {},
        Version::V10 => {},
        Version::V11 => {},
        Version::V12 => {},
        Version::V13 => {},
        Version::V14 => {},
        Version::V15 => {},
        Version::V16 => {},
        Version::V17 => {},
        Version::V18 => {},
        Version::V19 => {},
        Version::V20 => {},
        Version::V21 => {},
        Version::V22 => {},
        Version::V23 => {},
        Version::V24 => {},
        Version::V25 => {},
        Version::V26 => {},
        Version::V27 => {},
        Version::V28 => {},
        Version::V29 => {},
        Version::V30 => {},
        Version::V31 => {},
        Version::V32 => {},
        Version::V33 => {},
        Version::V34 => {},
        Version::V35 => {},
        Version::V36 => {},
        Version::V37 => {},
        Version::V38 => {},
        Version::V39 => {},
        Version::V40 => {},
    }
}

/// The two kinds of tables agree at level Q, version by version.
#[verifier::rlimit(60)]
proof fn lemma_tables_agree_q(version: Version)
    ensures
        unpacked(groups_table(ECL::Q)[version.index_of() + 1]) == groups_of(ECL::Q, version),
        databits_table(ECL::Q)[version.index_of() + 1] == 8 * data_codewords_of(version, ECL::Q),
{
    match version {
        Version::V01 => {},
        Version::V02 => {},
        Version::V03 => {},
        Version::V04 => {},
        Version::V05 => {},
        Version::V06 => {},
        Version::V07 => {},
        Version::V08 => {},
        Version::V09 => {},
        Version::V10 => {},
        Version::V11 => {},
        Version::V12 => {},
        Version::V13 => {},
        Version::V14 => {},
        Version::V15 => {},
        Version::V16 => {},
        Version::V17 => {},
        Version::V18 => {},
        Version::V19 => {},
        Version::V20 => {},
        Version::V21 => {},
        Version::V22 => {},
        Version::V23 => {},
        Version::V24 => {},
        Version::V25 => {},
        Version::V26 => {},
        Version::V27 => {},
        Version::V28 => {},
        Version::V29 => {},
        Version::V30 => {},
        Version::V31 => {},
        Version::V32 => {},
        Version::V33 => {},
        Version::V34 => {},
        Version::V35 => {},
        Version::V36 => {},
        Version::V37 => {},
        Version::V38 => {},
        Version::V39 => {},
        Version::V40 => {},
    }
}

/// The two kinds of tables agree at level H, version by version.
#[verifier::rlimit(60)]
proof fn lemma_tables_agree_h(version: Version)
    ensures
        unpacked(groups_table(ECL::H)[version.index_of() + 1]) == groups_of(ECL::H, version),
        databits_table(ECL::H)[version.index_of() + 1] == 8 * data_codewords_of(version, ECL::H),
{
    match version {
        Version::V01 => {},
        Version::V02 => {},
        Version::V03 => {},
        Version::V04 => {},
        Version::V05 => {},
        Version::V06 => {},
        Version::V07 => {},
        Version::V08 => {},
        Version::V09 => {},
        Version::V10 => {},
        Version::V11 => {},
        Version::V12 => {},
        Version::V13 => {},
        Version::V14 => {},
        Version::V15 => {},
        Version::V16 => {},
        Version::V17 => {},
        Version::V18 => {},
        Version::V19 => {},
        Version::V20 => {},
        Version::V21 => {},
        Version::V22 => {},
        Version::V23 => {},
        Version::V24 => {},
        Version::V25 => {},
        Version::V26 => {},
        Version::V27 => {},
        Version::V28 => {},
        Version::V29 => {},
        Version::V30 => {},
        Version::V31 => {},
        Version::V32 => {},
        Version::V33 => {},
        Version::V34 => {},
        Version::V35 => {},
        Version::V36 => {},
        Version::V37 => {},
        Version::V38 => {},
        Version::V39 => {},
        Version::V40 => {},
    }
}

/// The codewords of a symbol of `version` at level `quality` number its data
/// codewords plus `ecc_to_ect(quality, version)` error correction codewords
/// for each block of `ecc_to_groups(quality, version)`.
pub proof fn lemma_structure_len(data: Seq<u8>, by: Seq<u8>, quality: ECL, version: Version)
    requires
        data.len() == data_codewords_of(version, quality),
        by.len() == ect_table(quality)[version.index_of() + 1] + 1,
    ensures
        interleaved(data, by, unpacked(groups_table(quality)[version.index_of() + 1])).len()
            == data_codewords_of(version, quality) + ect_table(quality)[version.index_of() + 1]
            * block_count(groups_of(quality, version)),
{
    lemma_tables_agree(quality, version);
    lemma_groups_hold_data(quality, version);
    lemma_interleaved_len(data, by, groups_of(quality, version));
}

/// Penalty of the dark module balance rule, by percentage of dark modules: ten
/// points for each full five percent away from fifty. Indices above 99 are
/// never produced and hold 255.
pub const PERCENT_SCORE: [u32; 256] = [
    90, 90, 90, 90, 90, 80, 80, 80, 80, 80, 70, 70, 70, 70, 70, 60, 60, 60, 60, 60, 50, 50, 50,
    50, 50, 40, 40, 40, 40, 40, 30, 30, 30, 30, 30, 20, 20, 20, 20, 20, 10, 10, 10, 10, 10, 0,
    0, 0, 0, 0, 0, 0, 0, 0, 0, 10, 10, 10, 10, 10, 20, 20, 20, 20, 20, 30, 30, 30, 30, 30, 40,
    40, 40, 40, 40, 50, 50, 50, 50, 50, 60, 60, 60, 60, 60, 70, 70, 70, 70, 70, 80, 80, 80, 80,
    80, 90, 90, 90, 90, 90, 255, 255, 255, 255, 255, 255, 255, 255, 255, 255, 255, 255, 255,
    255, 255, 255, 255, 255, 255, 255, 255, 255, 255, 255, 255, 255, 255, 255, 255, 255, 255,
    255, 255, 255, 255, 255, 255, 255, 255, 255, 255, 255, 255, 255, 255, 255, 255, 255, 255,
    255, 255, 255, 255, 255, 255, 255, 255, 255, 255, 255, 255, 255, 255, 255, 255, 255, 255,
    255, 255, 255, 255, 255, 255, 255, 255, 255, 255, 255, 255, 255, 255, 255, 255, 255, 255,
    255, 255, 255, 255, 255, 255, 255, 255, 255, 255, 255, 255, 255, 255, 255, 255, 255, 255,
    255, 255, 255, 255, 255, 255, 255, 255, 255, 255, 255, 255, 255, 255, 255, 255, 255, 255,
    255, 255, 255, 255, 255, 255, 255, 255, 255, 255, 255, 255, 255, 255, 255, 255, 255, 255,
    255, 255, 255, 255, 255, 255, 255, 255, 255, 255, 255, 255, 255, 255, 255, 255, 255,
];

/// Run penalty at the edge of a window of 11 modules, by the window's bits 4 and up.
pub const TRAILING_SCORE_11: [u32; 128] = [
    9, 3, 8, 4, 8, 4, 7, 5, 8, 4, 7, 5, 7, 5, 6, 6, 8, 4, 7, 5, 7, 5, 6, 6, 7, 5, 6, 6, 6, 6,
    5, 7, 8, 4, 7, 5, 7, 5, 6, 6, 7, 5, 6, 6, 6, 6, 5, 7, 7, 5, 6, 6, 6, 6, 5, 7, 6, 6, 5, 7,
    5, 7, 4, 8, 8, 4, 7, 5, 7, 5, 6, 6, 7, 5, 6, 6, 6, 6, 5, 7, 7, 5, 6, 6, 6, 6, 5, 7, 6, 6,
    5, 7, 5, 7, 4, 8, 7, 5, 6, 6, 6, 6, 5, 7, 6, 6, 5, 7, 5, 7, 4, 8, 6, 6, 5, 7, 5, 7, 4, 8,
    5, 7, 4, 8, 4, 8, 3, 9,
];

/// Run penalty at the edge of a window of 10 modules, by the window's bits 4 and up.
pub const TRAILING_SCORE_10: [u32; 64] = [
    8, 3, 7, 4, 7, 4, 6, 5, 7, 4, 6, 5, 6, 5, 5, 6, 7, 4, 6, 5, 6, 5, 5, 6, 6, 5, 5, 6, 5, 6,
    4, 7, 7, 4, 6, 5, 6, 5, 5, 6, 6, 5, 5, 6, 5, 6, 4, 7, 6, 5, 5, 6, 5, 6, 4, 7, 5, 6, 4, 7,
    4, 7, 3, 8,
];

/// Run penalty at the edge of a window of 9 modules, by the window's bits 4 and up.
pub const TRAILING_SCORE_9: [u32; 32] = [
    7, 3, 6, 4, 6, 4, 5, 5, 6, 4, 5, 5, 5, 5, 4, 6, 6, 4, 5, 5, 5, 5, 4, 6, 5, 5, 4, 6, 4, 6,
    3, 7,
];

/// Run penalty at the edge of a window of 8 modules, by the window's bits 4 and up.
pub const TRAILING_SCORE_8: [u32; 16] = [
    6, 3, 5, 4, 5, 4, 4, 5, 5, 4, 4, 5, 4, 5, 3, 6,
];

/// Run penalty at the edge of a window of 7 modules, by the window's bits 4 and up.
pub const TRAILING_SCORE_7: [u32; 8] = [
    5, 3, 4, 4, 4, 4, 3, 5,
];

/// Run penalty at the edge of a window of 6 modules, by the window's bits 4 and up.
pub const TRAILING_SCORE_6: [u32; 4] = [
    4, 3, 3, 4,
];

/// Run penalty at the edge of a window of 5 modules, by the window's bits 4 and up.
pub const TRAILING_SCORE_5: [u32; 2] = [
    3, 3,
];

/// Table of run penalties for a window of `size` modules.
pub open spec fn trailing_table(size: u32) -> Seq<u32> {
    match size {
        11 => TRAILING_SCORE_11@,
        10 => TRAILING_SCORE_10@,
        9 => TRAILING_SCORE_9@,
        8 => TRAILING_SCORE_8@,
        7 => TRAILING_SCORE_7@,
        6 => TRAILING_SCORE_6@,
        5 => TRAILING_SCORE_5@,
        _ => Seq::empty(),
    }
}

/// The five most recent modules of `buffer` are all light or all dark.
pub open spec fn uniform_tail(buffer: u16) -> bool {
    buffer % 32 == 0 || buffer % 32 == 31
}

/// Penalty of a run that reaches the edge of the window: `buffer` holds the
/// last `buffer_size` modules, the most recent in bit 0. Unless the five most
/// recent are all of one color the run has ended within the window and the
/// penalty is 0. Window sizes other than 5 to 11 give 255.
pub fn trailing(buffer: u16, buffer_size: u32) -> (r: u32)
    requires
        5 <= buffer_size <= 11 ==> buffer < vstd::arithmetic::power2::pow2(buffer_size as nat),
    ensures
        !uniform_tail(buffer) ==> r == 0,
        uniform_tail(buffer) && 5 <= buffer_size <= 11 ==> r == trailing_table(
            buffer_size,
        )[buffer as int / 16],
        uniform_tail(buffer) && !(5 <= buffer_size <= 11) ==> r == 255,
{
    let b = buffer & 0b11111;
    assert(b == buffer % 32) by (bit_vector)
        requires
            b == buffer & 0b11111,
    ;
    if b != 0b00000 && b != 0b11111 {
        return 0u32;
    }
    let index = buffer >> 4;
    assert(index == buffer / 16) by (bit_vector)
        requires
            index == buffer >> 4,
    ;
    proof {
        vstd::arithmetic::power2::lemma2_to64();
    }
    match buffer_size {
        11 => TRAILING_SCORE_11[index as usize],
        10 => TRAILING_SCORE_10[index as usize],
        9 => TRAILING_SCORE_9[index as usize],
        8 => TRAILING_SCORE_8[index as usize],
        7 => TRAILING_SCORE_7[index as usize],
        6 => TRAILING_SCORE_6[index as usize],
        5 => TRAILING_SCORE_5[index as usize],
        _ => 255,
    }
}

} // verus!
