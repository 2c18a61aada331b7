use fast_qr::encode::Mode;
use fast_qr::hardcode::{
    cci_bits, data_bits, data_codewords, ecc_to_groups, ecm_to_format_information,
    get_polynomial, trailing, PERCENT_SCORE,
};
use fast_qr::vecl::{ecc_to_databits, ECL};
use fast_qr::version::Version;

const LEVELS: [ECL; 4] = [ECL::L, ECL::M, ECL::Q, ECL::H];

const ALL_VERSIONS: [Version; 40] = [
    Version::V01, Version::V02, Version::V03, Version::V04, Version::V05,
    Version::V06, Version::V07, Version::V08, Version::V09, Version::V10,
    Version::V11, Version::V12, Version::V13, Version::V14, Version::V15,
    Version::V16, Version::V17, Version::V18, Version::V19, Version::V20,
    Version::V21, Version::V22, Version::V23, Version::V24, Version::V25,
    Version::V26, Version::V27, Version::V28, Version::V29, Version::V30,
    Version::V31, Version::V32, Version::V33, Version::V34, Version::V35,
    Version::V36, Version::V37, Version::V38, Version::V39, Version::V40,
];

#[test]
fn groups_sum_to_data_codewords() {
    for version in ALL_VERSIONS {
        for ecl in LEVELS {
            let [(c1, s1), (c2, s2)] = ecc_to_groups(ecl, version);
            assert_eq!(c1 * s1 + c2 * s2, data_codewords(version, ecl));
        }
    }
}

#[test]
fn groups_known_layouts() {
    assert_eq!(ecc_to_groups(ECL::M, Version::V01), [(1, 16), (0, 0)]);
    assert_eq!(ecc_to_groups(ECL::Q, Version::V05), [(2, 15), (2, 16)]);
    assert_eq!(ecc_to_groups(ECL::H, Version::V40), [(20, 15), (61, 16)]);
}

#[test]
fn data_codewords_and_bits() {
    assert_eq!(data_codewords(Version::V01, ECL::L), 19);
    assert_eq!(data_codewords(Version::V01, ECL::M), 16);
    assert_eq!(data_codewords(Version::V40, ECL::L), 2956);
    assert_eq!(data_codewords(Version::V40, ECL::H), 1276);
    assert_eq!(data_bits(Version::V01, ECL::M), 128);
    for (i, version) in ALL_VERSIONS.iter().enumerate() {
        for ecl in LEVELS {
            assert_eq!(data_bits(*version, ecl), ecc_to_databits(ecl, i + 1) as usize);
        }
    }
}

#[test]
fn cci_bits_bands() {
    assert_eq!(cci_bits(Version::V01, Mode::Numeric), 10);
    assert_eq!(cci_bits(Version::V09, Mode::Alphanumeric), 9);
    assert_eq!(cci_bits(Version::V10, Mode::Numeric), 12);
    assert_eq!(cci_bits(Version::V10, Mode::Byte), 16);
    assert_eq!(cci_bits(Version::V26, Mode::Alphanumeric), 11);
    assert_eq!(cci_bits(Version::V27, Mode::Numeric), 14);
    assert_eq!(cci_bits(Version::V27, Mode::Alphanumeric), 13);
    assert_eq!(cci_bits(Version::V09, Mode::Byte), 8);
    assert_eq!(cci_bits(Version::V40, Mode::Byte), 16);
}

#[test]
fn polynomial_for_version() {
    assert_eq!(get_polynomial(Version::V01, ECL::L), &[0, 87, 229, 146, 149, 238, 102, 21]);
    assert_eq!(get_polynomial(Version::V01, ECL::M), &[0, 251, 67, 46, 61, 118, 70, 64, 94, 32, 45]);
    assert_eq!(get_polynomial(Version::V40, ECL::H).len(), 31);
    assert_eq!(get_polynomial(Version::V02, ECL::M), get_polynomial(Version::V06, ECL::M));
}

#[test]
fn format_information_values() {
    assert_eq!(ecm_to_format_information(ECL::L, 0), 0b111011111000100);
    assert_eq!(ecm_to_format_information(ECL::M, 4), 0b100010111111001);
    assert_eq!(ecm_to_format_information(ECL::H, 7), 0b000100000111011);
}

#[test]
fn format_information_distance() {
    let mut words = Vec::new();
    for ecl in LEVELS {
        for mask in 0..8 {
            words.push(ecm_to_format_information(ecl, mask));
        }
    }
    for i in 0..words.len() {
        assert!(words[i] < 0x8000);
        for j in i + 1..words.len() {
            assert!((words[i] ^ words[j]).count_ones() >= 7);
        }
    }
}

#[test]
fn format_information_carries_level_and_mask() {
    let indicators = [(ECL::L, 1u16), (ECL::M, 0), (ECL::Q, 3), (ECL::H, 2)];
    for (ecl, bits) in indicators {
        for mask in 0..8usize {
            let word = ecm_to_format_information(ecl, mask) ^ 0b101010000010010;
            assert_eq!(word >> 10, bits * 8 + mask as u16);
        }
    }
}

#[test]
fn trailing_broken_run_is_zero() {
    for size in 5..=11u32 {
        for buffer in 0..(1u16 << size) {
            let low = buffer & 0b11111;
            if low != 0 && low != 0b11111 {
                assert_eq!(trailing(buffer, size), 0);
            }
        }
    }
}

#[test]
fn trailing_runs_at_edge() {
    assert_eq!(trailing(0b00000, 5), 3);
    assert_eq!(trailing(0b11111, 5), 3);
    assert_eq!(trailing(0b111111, 6), 4);
    assert_eq!(trailing(0b011111, 6), 3);
    assert_eq!(trailing(0, 11), 9);
    assert_eq!(trailing(0b11111111111, 11), 9);
    assert_eq!(trailing(0b10101, 5), 0);
    assert_eq!(trailing(0, 12), 255);
}

#[test]
fn percent_score_balance() {
    assert_eq!(PERCENT_SCORE[0], 90);
    assert_eq!(PERCENT_SCORE[44], 10);
    assert_eq!(PERCENT_SCORE[45], 0);
    assert_eq!(PERCENT_SCORE[50], 0);
    assert_eq!(PERCENT_SCORE[55], 10);
    assert_eq!(PERCENT_SCORE[99], 90);
    assert_eq!(PERCENT_SCORE[200], 255);
}
