//! Error correction levels and the per-version tables that are indexed by a
//! version number (1 to 40; index 0 of every table is unused).

use vstd::prelude::*;

verus! {

/// Error correction level: the share of codewords that can be restored.
#[derive(Clone, Copy, Debug, PartialEq, Eq, Structural)]
pub enum ECL {
    /// Low, 7%
    L,
    /// Medium, 15%
    M,
    /// Quartile, 25%
    Q,
    /// High, 30%
    H,
}

/// Data bits of each version at level L (low).
pub const L_DATABITS: [u16; 41] = [
    0, 152, 272, 440, 640, 864, 1088, 1248, 1552, 1856, 2192, 2592, 2960, 3424, 3688, 4184,
    4712, 5176, 5768, 6360, 6888, 7456, 8048, 8752, 9392, 10208, 10960, 11744, 12248, 13048,
    13880, 14744, 15640, 16568, 17528, 18448, 19472, 20528, 21616, 22496, 23648,
];

/// Data bits of each version at level M (medium).
pub const M_DATABITS: [u16; 41] = [
    0, 128, 224, 352, 512, 688, 864, 992, 1232, 1456, 1728, 2032, 2320, 2672, 2920, 3320, 3624,
    4056, 4504, 5016, 5352, 5712, 6256, 6880, 7312, 8000, 8496, 9024, 9544, 10136, 10984,
    11640, 12328, 13048, 13800, 14496, 15312, 15936, 16816, 17728, 18672,
];

/// Data bits of each version at level Q (quartile).
pub const Q_DATABITS: [u16; 41] = [
    0, 104, 176, 272, 384, 496, 608, 704, 880, 1056, 1232, 1440, 1648, 1952, 2088, 2360, 2600,
    2936, 3176, 3560, 3880, 4096, 4544, 4912, 5312, 5744, 6032, 6464, 6968, 7288, 7880, 8264,
    8920, 9368, 9848, 10288, 10832, 11408, 12016, 12656, 13328,
];

/// Data bits of each version at level H (high).
pub const H_DATABITS: [u16; 41] = [
    0, 72, 128, 208, 288, 368, 480, 528, 688, 800, 976, 1120, 1264, 1440, 1576, 1784, 2024,
    2264, 2504, 2728, 3080, 3248, 3536, 3712, 4112, 4304, 4768, 5024, 5288, 5608, 5960, 6344,
    6760, 7208, 7688, 7888, 8432, 8768, 9136, 9776, 10208,
];

/// Data bits of each version (1 to 40) at level `quality`.
pub open spec fn databits_table(quality: ECL) -> Seq<u16> {
    match quality {
        ECL::L => L_DATABITS@,
        ECL::M => M_DATABITS@,
        ECL::Q => Q_DATABITS@,
        ECL::H => H_DATABITS@,
    }
}

/// Number of data bits that a symbol of `version` holds at level `quality`.
pub fn ecc_to_databits(quality: ECL, version: usize) -> (r: u16)
    requires
        1 <= version <= 40,
    ensures
        r == databits_table(quality)[version as int],
{
    match quality {
        ECL::L => L_DATABITS[version],
        ECL::M => M_DATABITS[version],
        ECL::Q => Q_DATABITS[version],
        ECL::H => H_DATABITS[version],
    }
}

/// Error correction codewords per block of each version at level L.
pub const L_ECT: [usize; 41] = [
    0, 7, 10, 15, 20, 26, 18, 20, 24, 30, 18, 20, 24, 26, 30, 22, 24, 28, 30, 28, 28, 28, 28,
    30, 30, 26, 28, 30, 30, 30, 30, 30, 30, 30, 30, 30, 30, 30, 30, 30, 30,
];

/// Error correction codewords per block of each version at level M.
pub const M_ECT: [usize; 41] = [
    0, 10, 16, 26, 18, 24, 16, 18, 22, 22, 26, 30, 22, 22, 24, 24, 28, 28, 26, 26, 26, 26, 28,
    28, 28, 28, 28, 28, 28, 28, 28, 28, 28, 28, 28, 28, 28, 28, 28, 28, 28,
];

/// Error correction codewords per block of each version at level Q.
pub const Q_ECT: [usize; 41] = [
    0, 13, 22, 18, 26, 18, 24, 18, 22, 20, 24, 28, 26, 24, 20, 30, 24, 28, 28, 26, 30, 28, 30,
    30, 30, 30, 28, 30, 30, 30, 30, 30, 30, 30, 30, 30, 30, 30, 30, 30, 30,
];

/// Error correction codewords per block of each version at level H.
pub const H_ECT: [usize; 41] = [
    0, 17, 28, 22, 16, 22, 28, 26, 26, 24, 28, 24, 28, 22, 24, 24, 30, 28, 28, 26, 28, 30, 24,
    30, 30, 30, 30, 30, 30, 30, 30, 30, 30, 30, 30, 30, 30, 30, 30, 30, 30,
];

/// Error correction codewords per block of each version (1 to 40) at level `quality`.
pub open spec fn ect_table(quality: ECL) -> Seq<usize> {
    match quality {
        ECL::L => L_ECT@,
        ECL::M => M_ECT@,
        ECL::Q => Q_ECT@,
        ECL::H => H_ECT@,
    }
}

/// Number of error correction codewords in each block of `version` at level `quality`.
pub fn ecc_to_ect(quality: ECL, version: usize) -> (r: usize)
    requires
        1 <= version <= 40,
    ensures
        r == ect_table(quality)[version as int],
        7 <= r <= 30,
{
    proof {
        lemma_ect_range(quality, version as int);
    }
    match quality {
        ECL::L => L_ECT[version],
        ECL::M => M_ECT[version],
        ECL::Q => Q_ECT[version],
        ECL::H => H_ECT[version],
    }
}

/// Every block carries between 7 and 30 error correction codewords.
pub proof fn lemma_ect_range(quality: ECL, version: int)
    requires
        1 <= version <= 40,
    ensures
        7 <= ect_table(quality)[version] <= 30,
{
}

/// Block layout of each version at level L, one byte per field.
pub const L_GROUPS: [u32; 41] = [
    0x00000000, 0x01130000, 0x01220000, 0x01370000, 0x01500000, 0x016C0000, 0x02440000,
    0x024E0000, 0x02610000, 0x02740000, 0x02440245, 0x04510000, 0x025C025D, 0x046B0000,
    0x03730174, 0x05570158, 0x05620163, 0x016B056C, 0x05780179, 0x03710472, 0x036B056C,
    0x04740475, 0x026F0770, 0x0479057A, 0x06750476, 0x086A046B, 0x0A720273, 0x087A047B,
    0x03750A76, 0x07740775, 0x05730A74, 0x0D730374, 0x11730000, 0x11730174, 0x0D730674,
    0x0C79077A, 0x06790E7A, 0x117A047B, 0x047A127B, 0x14750476, 0x13760677,
];

/// Block layout of each version at level M, one byte per field.
pub const M_GROUPS: [u32; 41] = [
    0x00000000, 0x01100000, 0x011C0000, 0x012C0000, 0x02200000, 0x022B0000, 0x041B0000,
    0x041F0000, 0x02260227, 0x03240225, 0x042B012C, 0x01320433, 0x06240225, 0x08250126,
    0x04280529, 0x0529052A, 0x072D032E, 0x0A2E012F, 0x092B042C, 0x032C0B2D, 0x03290D2A,
    0x112A0000, 0x112E0000, 0x042F0E30, 0x062D0E2E, 0x082F0D30, 0x132E042F, 0x162D032E,
    0x032D172E, 0x152D072E, 0x132F0A30, 0x022E1D2F, 0x0A2E172F, 0x0E2E152F, 0x0E2E172F,
    0x0C2F1A30, 0x062F2230, 0x1D2E0E2F, 0x0D2E202F, 0x282F0730, 0x122F1F30,
];

/// Block layout of each version at level Q, one byte per field.
pub const Q_GROUPS: [u32; 41] = [
    0x00000000, 0x010D0000, 0x01160000, 0x02110000, 0x02180000, 0x020F0210, 0x04130000,
    0x020E040F, 0x04120213, 0x04100411, 0x06130214, 0x04160417, 0x04140615, 0x08140415,
    0x0B100511, 0x05180719, 0x0F130214, 0x01160F17, 0x11160117, 0x11150416, 0x0F180519,
    0x11160617, 0x07181019, 0x0B180E19, 0x0B181019, 0x07181619, 0x1C160617, 0x08171A18,
    0x04181F19, 0x01172518, 0x0F181919, 0x2A180119, 0x0A182319, 0x1D181319, 0x2C180719,
    0x27180E19, 0x2E180A19, 0x31180A19, 0x30180E19, 0x2B181619, 0x22182219,
];

/// Block layout of each version at level H, one byte per field.
pub const H_GROUPS: [u32; 41] = [
    0x00000000, 0x01090000, 0x01100000, 0x020D0000, 0x04090000, 0x020B020C, 0x040F0000,
    0x040D010E, 0x040E020F, 0x040C040D, 0x060F0210, 0x030C080D, 0x070E040F, 0x0C0B040C,
    0x0B0C050D, 0x0B0C070D, 0x030F0D10, 0x020E110F, 0x020E130F, 0x090D100E, 0x0F0F0A10,
    0x13100611, 0x220D0000, 0x100F0E10, 0x1E100211, 0x160F0D10, 0x21100411, 0x0C0F1C10,
    0x0B0F1F10, 0x130F1A10, 0x170F1910, 0x170F1C10, 0x130F2310, 0x0B0F2E10, 0x3B100111,
    0x160F2910, 0x020F4010, 0x180F2E10, 0x2A0F2010, 0x0A0F4310, 0x140F3D10,
];

/// Packed block layout of each version (1 to 40) at level `quality`.
///
/// From the most significant byte down: blocks in group 1, codewords per block
/// of group 1, blocks in group 2, codewords per block of group 2.
pub open spec fn groups_table(quality: ECL) -> Seq<u32> {
    match quality {
        ECL::L => L_GROUPS@,
        ECL::M => M_GROUPS@,
        ECL::Q => Q_GROUPS@,
        ECL::H => H_GROUPS@,
    }
}

/// The layout `[(g1_count, g1_size), (g2_count, g2_size)]` that a packed word holds.
pub open spec fn unpacked(word: u32) -> [(usize, usize); 2] {
    [
        ((word / 0x100_0000) as usize, ((word / 0x1_0000) % 0x100) as usize),
        (((word / 0x100) % 0x100) as usize, (word % 0x100) as usize),
    ]
}

/// Block layout of `version` at level `quality`: `[(g1_count, g1_size), (g2_count, g2_size)]`.
pub fn ecc_to_groups(quality: ECL, version: usize) -> (r: [(usize, usize); 2])
    requires
        1 <= version <= 40,
    ensures
        r == unpacked(groups_table(quality)[version as int]),
{
    let groups_bits = match quality {
        ECL::L => L_GROUPS[version],
        ECL::M => M_GROUPS[version],
        ECL::Q => Q_GROUPS[version],
        ECL::H => H_GROUPS[version],
    };
    let grp1 = (groups_bits >> 24) & 0xFF;
    let grp2 = (groups_bits >> 16) & 0xFF;
    let grp3 = (groups_bits >> 8) & 0xFF;
    let grp4 = groups_bits & 0xFF;
    proof {
        lemma_unpack(groups_bits);
    }
    [(grp1 as usize, grp2 as usize), (grp3 as usize, grp4 as usize)]
}

/// Shifting and masking a word reads the bytes that `unpacked` names.
proof fn lemma_unpack(w: u32)
    ensures
        (w >> 24) & 0xFF == w / 0x100_0000,
        (w >> 16) & 0xFF == (w / 0x1_0000) % 0x100,
        (w >> 8) & 0xFF == (w / 0x100) % 0x100,
        w & 0xFF == w % 0x100,
{
    assert((w >> 24) & 0xFF == w / 0x100_0000) by (bit_vector);
    assert((w >> 16) & 0xFF == (w / 0x1_0000) % 0x100) by (bit_vector);
    assert((w >> 8) & 0xFF == (w / 0x100) % 0x100) by (bit_vector);
    assert(w & 0xFF == w % 0x100) by (bit_vector);
}

/// Remainder bits that follow the codewords in the matrix of each version.
pub const MISSING_BITS: [u8; 41] = [
    0, 0, 7, 7, 7, 7, 7, 0, 0, 0, 0, 0, 0, 0, 3, 3, 3, 3, 3, 3, 3, 4, 4, 4, 4, 4, 4, 4, 3, 3,
    3, 3, 3, 3, 3, 0, 0, 0, 0, 0, 0,
];

/// Number of remainder bits of `version`.
pub fn version_missing_bits(version: usize) -> (r: u8)
    requires
        1 <= version <= 40,
    ensures
        r == MISSING_BITS@[version as int],
{
    MISSING_BITS[version]
}

} // verus!
