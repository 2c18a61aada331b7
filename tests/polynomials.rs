use fast_qr::generators::generator;
use fast_qr::gf256::division;
use fast_qr::hardcode::{data_codewords, ecc_to_groups, get_polynomial};
use fast_qr::polynomials::structure;
use fast_qr::vecl::{ecc_to_ect, ECL};
use fast_qr::version::Version;

const HELLO_WORLD_1M: [u8; 16] = [
    32, 91, 11, 120, 209, 114, 220, 77, 67, 64, 236, 17, 236, 17, 236, 17,
];

#[test]
fn division_hello_world() {
    let by = generator(10);
    let r = division(&HELLO_WORLD_1M, by);
    assert_eq!(r, vec![196, 35, 39, 119, 235, 215, 231, 226, 93, 23]);
}

#[test]
fn division_zero_message() {
    let by = generator(13);
    for n in 0..40 {
        let message = vec![0u8; n];
        assert_eq!(division(&message, by), vec![0u8; 13]);
    }
}

#[test]
fn division_degree_zero() {
    assert_eq!(division(&[1, 2, 3], &[0]), Vec::<u8>::new());
}

#[test]
fn structure_hello_world_1m() {
    let data = HELLO_WORLD_1M.to_vec();
    let by = get_polynomial(Version::V01, ECL::M);
    let r = structure(&data, by, ECL::M, 1);
    let mut expected = HELLO_WORLD_1M.to_vec();
    expected.extend_from_slice(&[196, 35, 39, 119, 235, 215, 231, 226, 93, 23]);
    assert_eq!(r, expected);
}

#[test]
fn structure_interleaves_two_groups() {
    // Version 5 at level Q: two blocks of 15 codewords, then two of 16.
    let data: Vec<u8> = (1..=62).collect();
    let by = get_polynomial(Version::V05, ECL::Q);
    let r = structure(&data, by, ECL::Q, 5);
    assert_eq!(r.len(), 62 + 18 * 4);
    assert_eq!(&r[..8], &[1, 16, 31, 47, 2, 17, 32, 48]);
    assert_eq!(&r[56..62], &[15, 30, 45, 61, 46, 62]);
    let first_block = division(&data[0..15], by);
    let last_block = division(&data[46..62], by);
    for j in 0..18 {
        assert_eq!(r[62 + j * 4], first_block[j]);
        assert_eq!(r[62 + j * 4 + 3], last_block[j]);
    }
    assert_eq!(&r[62..66], &[245, 15, 15, 163]);
}

#[test]
fn structure_length_every_version() {
    for (i, version) in ALL_VERSIONS.iter().enumerate() {
        for ecl in [ECL::L, ECL::M, ECL::Q, ECL::H] {
            let n = data_codewords(*version, ecl);
            let data = vec![7u8; n];
            let by = get_polynomial(*version, ecl);
            let r = structure(&data, by, ecl, i + 1);
            let [(c1, _), (c2, _)] = ecc_to_groups(ecl, *version);
            assert_eq!(r.len(), n + ecc_to_ect(ecl, i + 1) * (c1 + c2));
        }
    }
}

const ALL_VERSIONS: [Version; 40] = [
    Version::V01, Version::V02, Version::V03, Version::V04, Version::V05,
    Version::V06, Version::V07, Version::V08, Version::V09, Version::V10,
    Version::V11, Version::V12, Version::V13, Version::V14, Version::V15,
    Version::V16, Version::V17, Version::V18, Version::V19, Version::V20,
    Version::V21, Version::V22, Version::V23, Version::V24, Version::V25,
    Version::V26, Version::V27, Version::V28, Version::V29, Version::V30,
    Version::V31, Version::V32, Version::V33, Version::V34, Version::V35,
    Version::V36, Version::V37, Version::V38, Version::V39, Version::V40,
];

#[test]
fn generated_to_string_example() {
    assert_eq!(
        fast_qr::generators::generated_to_string(&[0, 75, 249, 78, 6]),
        "α0x4 + α75x3 + α249x2 + α78x + α6"
    );
    assert_eq!(fast_qr::generators::generated_to_string(&[0]), "α0");
    assert_eq!(fast_qr::generators::generated_to_string(&[]), "");
    let long = fast_qr::generators::generated_to_string(generator(12));
    assert!(long.starts_with("α0x12 + α102x11 + "));
    assert!(long.ends_with("α66"));
}
