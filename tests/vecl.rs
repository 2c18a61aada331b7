use fast_qr::vecl::{ecc_to_databits, ecc_to_ect, ecc_to_groups, version_missing_bits, ECL};

#[test]
fn databits_known_values() {
    assert_eq!(ecc_to_databits(ECL::L, 1), 152);
    assert_eq!(ecc_to_databits(ECL::M, 1), 128);
    assert_eq!(ecc_to_databits(ECL::H, 40), 10208);
}

#[test]
fn ect_known_values() {
    assert_eq!(ecc_to_ect(ECL::L, 1), 7);
    assert_eq!(ecc_to_ect(ECL::M, 1), 10);
    assert_eq!(ecc_to_ect(ECL::Q, 5), 18);
    assert_eq!(ecc_to_ect(ECL::H, 40), 30);
}

#[test]
fn groups_unpacked() {
    assert_eq!(ecc_to_groups(ECL::L, 1), [(1, 19), (0, 0)]);
    assert_eq!(ecc_to_groups(ECL::L, 10), [(2, 68), (2, 69)]);
    assert_eq!(ecc_to_groups(ECL::H, 40), [(20, 15), (61, 16)]);
    for v in 1..=40 {
        for ecl in [ECL::L, ECL::M, ECL::Q, ECL::H] {
            let [(c1, s1), (c2, s2)] = ecc_to_groups(ecl, v);
            assert_eq!((c1 * s1 + c2 * s2) * 8, ecc_to_databits(ecl, v) as usize);
        }
    }
}

#[test]
fn missing_bits_known_values() {
    assert_eq!(version_missing_bits(1), 0);
    assert_eq!(version_missing_bits(2), 7);
    assert_eq!(version_missing_bits(14), 3);
    assert_eq!(version_missing_bits(21), 4);
    assert_eq!(version_missing_bits(40), 0);
}
