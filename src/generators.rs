//! Catalog of the generator polynomials, one per number of error correction
//! codewords.

use vstd::prelude::*;

verus! {

/// Generator polynomial of degree 0, as exponents of α from the leading term down.
pub const GENERATOR_0: [u8; 1] = [
    0,
];

/// Generator polynomial of degree 1, as exponents of α from the leading term down.
pub const GENERATOR_1: [u8; 2] = [
    0, 0,
];

/// Generator polynomial of degree 2, as exponents of α from the leading term down.
pub const GENERATOR_2: [u8; 3] = [
    0, 25, 1,
];

/// Generator polynomial of degree 3, as exponents of α from the leading term down.
pub const GENERATOR_3: [u8; 4] = [
    0, 198, 199, 3,
];

/// Generator polynomial of degree 4, as exponents of α from the leading term down.
pub const GENERATOR_4: [u8; 5] = [
    0, 75, 249, 78, 6,
];

/// Generator polynomial of degree 5, as exponents of α from the leading term down.
pub const GENERATOR_5: [u8; 6] = [
    0, 113, 164, 166, 119, 10,
];

/// Generator polynomial of degree 6, as exponents of α from the leading term down.
pub const GENERATOR_6: [u8; 7] = [
    0, 166, 0, 134, 5, 176, 15,
];

/// Generator polynomial of degree 7, as exponents of α from the leading term down.
pub const GENERATOR_7: [u8; 8] = [
    0, 87, 229, 146, 149, 238, 102, 21,
];

/// Generator polynomial of degree 8, as exponents of α from the leading term down.
pub const GENERATOR_8: [u8; 9] = [
    0, 175, 238, 208, 249, 215, 252, 196, 28,
];

/// Generator polynomial of degree 9, as exponents of α from the leading term down.
pub const GENERATOR_9: [u8; 10] = [
    0, 95, 246, 137, 231, 235, 149, 11, 123, 36,
];

/// Generator polynomial of degree 10, as exponents of α from the leading term down.
pub const GENERATOR_10: [u8; 11] = [
    0, 251, 67, 46, 61, 118, 70, 64, 94, 32, 45,
];

/// Generator polynomial of degree 11, as exponents of α from the leading term down.
pub const GENERATOR_11: [u8; 12] = [
    0, 220, 192, 91, 194, 172, 177, 209, 116, 227, 10, 55,
];

/// Generator polynomial of degree 12, as exponents of α from the leading term down.
pub const GENERATOR_12: [u8; 13] = [
    0, 102, 43, 98, 121, 187, 113, 198, 143, 131, 87, 157, 66,
];

/// Generator polynomial of degree 13, as exponents of α from the leading term down.
pub const GENERATOR_13: [u8; 14] = [
    0, 74, 152, 176, 100, 86, 100, 106, 104, 130, 218, 206, 140, 78,
];

/// Generator polynomial of degree 14, as exponents of α from the leading term down.
pub const GENERATOR_14: [u8; 15] = [
    0, 199, 249, 155, 48, 190, 124, 218, 137, 216, 87, 207, 59, 22, 91,
];

/// Generator polynomial of degree 15, as exponents of α from the leading term down.
pub const GENERATOR_15: [u8; 16] = [
    0, 8, 183, 61, 91, 202, 37, 51, 58, 58, 237, 140, 124, 5, 99, 105,
];

/// Generator polynomial of degree 16, as exponents of α from the leading term down.
pub const GENERATOR_16: [u8; 17] = [
    0, 120, 104, 107, 109, 102, 161, 76, 3, 91, 191, 147, 169, 182, 194, 225, 120,
];

/// Generator polynomial of degree 17, as exponents of α from the leading term down.
pub const GENERATOR_17: [u8; 18] = [
    0, 43, 139, 206, 78, 43, 239, 123, 206, 214, 147, 24, 99, 150, 39, 243, 163, 136,
];

/// Generator polynomial of degree 18, as exponents of α from the leading term down.
pub const GENERATOR_18: [u8; 19] = [
    0, 215, 234, 158, 94, 184, 97, 118, 170, 79, 187, 152, 148, 252, 179, 5, 98, 96, 153,
];

/// Generator polynomial of degree 19, as exponents of α from the leading term down.
pub const GENERATOR_19: [u8; 20] = [
    0, 67, 3, 105, 153, 52, 90, 83, 17, 150, 159, 44, 128, 153, 133, 252, 222, 138, 220, 171,
];

/// Generator polynomial of degree 20, as exponents of α from the leading term down.
pub const GENERATOR_20: [u8; 21] = [
    0, 17, 60, 79, 50, 61, 163, 26, 187, 202, 180, 221, 225, 83, 239, 156, 164, 212, 212, 188,
    190,
];

/// Generator polynomial of degree 21, as exponents of α from the leading term down.
pub const GENERATOR_21: [u8; 22] = [
    0, 240, 233, 104, 247, 181, 140, 67, 98, 85, 200, 210, 115, 148, 137, 230, 36, 122, 254,
    148, 175, 210,
];

/// Generator polynomial of degree 22, as exponents of α from the leading term down.
pub const GENERATOR_22: [u8; 23] = [
    0, 210, 171, 247, 242, 93, 230, 14, 109, 221, 53, 200, 74, 8, 172, 98, 80, 219, 134, 160,
    105, 165, 231,
];

/// Generator polynomial of degree 23, as exponents of α from the leading term down.
pub const GENERATOR_23: [u8; 24] = [
    0, 171, 102, 146, 91, 49, 103, 65, 17, 193, 150, 14, 25, 183, 248, 94, 164, 224, 192, 1,
    78, 56, 147, 253,
];

/// Generator polynomial of degree 24, as exponents of α from the leading term down.
pub const GENERATOR_24: [u8; 25] = [
    0, 229, 121, 135, 48, 211, 117, 251, 126, 159, 180, 169, 152, 192, 226, 228, 218, 111, 0,
    117, 232, 87, 96, 227, 21,
];

/// Generator polynomial of degree 25, as exponents of α from the leading term down.
pub const GENERATOR_25: [u8; 26] = [
    0, 231, 181, 156, 39, 170, 26, 12, 59, 15, 148, 201, 54, 66, 237, 208, 99, 167, 144, 182,
    95, 243, 129, 178, 252, 45,
];

/// Generator polynomial of degree 26, as exponents of α from the leading term down.
pub const GENERATOR_26: [u8; 27] = [
    0, 173, 125, 158, 2, 103, 182, 118, 17, 145, 201, 111, 28, 165, 53, 161, 21, 245, 142, 13,
    102, 48, 227, 153, 145, 218, 70,
];

/// Generator polynomial of degree 27, as exponents of α from the leading term down.
pub const GENERATOR_27: [u8; 28] = [
    0, 79, 228, 8, 165, 227, 21, 180, 29, 9, 237, 70, 99, 45, 58, 138, 135, 73, 126, 172, 94,
    216, 193, 157, 26, 17, 149, 96,
];

/// Generator polynomial of degree 28, as exponents of α from the leading term down.
pub const GENERATOR_28: [u8; 29] = [
    0, 168, 223, 200, 104, 224, 234, 108, 180, 110, 190, 195, 147, 205, 27, 232, 201, 21, 43,
    245, 87, 42, 195, 212, 119, 242, 37, 9, 123,
];

/// Generator polynomial of degree 29, as exponents of α from the leading term down.
pub const GENERATOR_29: [u8; 30] = [
    0, 156, 45, 183, 29, 151, 219, 54, 96, 249, 24, 136, 5, 241, 175, 189, 28, 75, 234, 150,
    148, 23, 9, 202, 162, 68, 250, 140, 24, 151,
];

/// Generator polynomial of degree 30, as exponents of α from the leading term down.
pub const GENERATOR_30: [u8; 31] = [
    0, 41, 173, 145, 152, 216, 31, 179, 182, 50, 48, 110, 86, 239, 96, 222, 125, 42, 173, 226,
    193, 224, 130, 156, 37, 251, 216, 238, 40, 192, 180,
];

/// Generator polynomial, as exponents of α, for `n` error correction codewords.
pub open spec fn generator_spec(n: usize) -> Seq<u8> {
    match n {
        0 => GENERATOR_0@,
        1 => GENERATOR_1@,
        2 => GENERATOR_2@,
        3 => GENERATOR_3@,
        4 => GENERATOR_4@,
        5 => GENERATOR_5@,
        6 => GENERATOR_6@,
        7 => GENERATOR_7@,
        8 => GENERATOR_8@,
        9 => GENERATOR_9@,
        10 => GENERATOR_10@,
        11 => GENERATOR_11@,
        12 => GENERATOR_12@,
        13 => GENERATOR_13@,
        14 => GENERATOR_14@,
        15 => GENERATOR_15@,
        16 => GENERATOR_16@,
        17 => GENERATOR_17@,
        18 => GENERATOR_18@,
        19 => GENERATOR_19@,
        20 => GENERATOR_20@,
        21 => GENERATOR_21@,
        22 => GENERATOR_22@,
        23 => GENERATOR_23@,
        24 => GENERATOR_24@,
        25 => GENERATOR_25@,
        26 => GENERATOR_26@,
        27 => GENERATOR_27@,
        28 => GENERATOR_28@,
        29 => GENERATOR_29@,
        30 => GENERATOR_30@,
        _ => Seq::empty(),
    }
}

/// Generator polynomial for `n` error correction codewords.
pub fn generator(n: usize) -> (r: &'static [u8])
    requires
        n <= 30,
    ensures
        r@ == generator_spec(n),
        r@.len() == n + 1,
{
    match n {
        0 => &GENERATOR_0,
        1 => &GENERATOR_1,
        2 => &GENERATOR_2,
        3 => &GENERATOR_3,
        4 => &GENERATOR_4,
        5 => &GENERATOR_5,
        6 => &GENERATOR_6,
        7 => &GENERATOR_7,
        8 => &GENERATOR_8,
        9 => &GENERATOR_9,
        10 => &GENERATOR_10,
        11 => &GENERATOR_11,
        12 => &GENERATOR_12,
        13 => &GENERATOR_13,
        14 => &GENERATOR_14,
        15 => &GENERATOR_15,
        16 => &GENERATOR_16,
        17 => &GENERATOR_17,
        18 => &GENERATOR_18,
        19 => &GENERATOR_19,
        20 => &GENERATOR_20,
        21 => &GENERATOR_21,
        22 => &GENERATOR_22,
        23 => &GENERATOR_23,
        24 => &GENERATOR_24,
        25 => &GENERATOR_25,
        26 => &GENERATOR_26,
        27 => &GENERATOR_27,
        28 => &GENERATOR_28,
        29 => &GENERATOR_29,
        _ => &GENERATOR_30,
    }
}


/// Decimal digits of `n`, most significant first.
pub open spec fn decimal(n: nat) -> Seq<char>
    decreases n,
{
    if n < 10 {
        seq![digit_char(n)]
    } else {
        decimal(n / 10) + seq![digit_char(n % 10)]
    }
}

/// The character of a digit below ten.
pub open spec fn digit_char(d: nat) -> char {
    ((d + 0x30) as u8) as char
}

/// Text of the term of degree `degree`: `x` and its power, then the `+` that
/// leads to the next term; nothing for the constant term.
pub open spec fn power_text(degree: nat) -> Seq<char> {
    if degree == 0 {
        Seq::empty()
    } else if degree == 1 {
        "x + "@
    } else {
        "x"@ + decimal(degree) + " + "@
    }
}

/// Text of the first `k` terms of `poly`, whose exponents of α are given from
/// the leading term down: `α0x4 + α75x3 + α249x2 + α78x + α6` for
/// `[0, 75, 249, 78, 6]`.
pub open spec fn polynomial_text(poly: Seq<u8>, k: nat) -> Seq<char>
    decreases k,
{
    if k == 0 {
        Seq::empty()
    } else {
        polynomial_text(poly, (k - 1) as nat) + "α"@ + decimal(poly[k - 1] as nat) + power_text(
            (poly.len() - k) as nat,
        )
    }
}

/// Appends the digit `d`.
fn push_digit(s: &mut String, d: usize)
    requires
        d < 10,
    ensures
        final(s)@ == old(s)@ + seq![digit_char(d as nat)],
{
    let t = match d {
        0 => "0",
        1 => "1",
        2 => "2",
        3 => "3",
        4 => "4",
        5 => "5",
        6 => "6",
        7 => "7",
        8 => "8",
        _ => "9",
    };
    proof {
        reveal_strlit("0");
        reveal_strlit("1");
        reveal_strlit("2");
        reveal_strlit("3");
        reveal_strlit("4");
        reveal_strlit("5");
        reveal_strlit("6");
        reveal_strlit("7");
        reveal_strlit("8");
        reveal_strlit("9");
    }
    s.append(t);
}

/// Appends the decimal digits of `n`.
fn push_decimal(s: &mut String, n: usize)
    ensures
        final(s)@ == old(s)@ + decimal(n as nat),
    decreases n,
{
    if n < 10 {
        push_digit(s, n);
    } else {
        push_decimal(s, n / 10);
        push_digit(s, n % 10);
        assert(final(s)@ =~= old(s)@ + decimal(n as nat));
    }
}

/// Human readable form of a generator polynomial given as exponents of α:
/// `[0, 75, 249, 78, 6]` gives `α0x4 + α75x3 + α249x2 + α78x + α6`.
pub fn generated_to_string(poly: &[u8]) -> (r: String)
    ensures
        r@ == polynomial_text(poly@, poly@.len()),
{
    let mut s = String::new();
    let length = poly.len();
    let mut i: usize = 0;
    while i < length
        invariant
            length == poly@.len(),
            i <= length,
            s@ == polynomial_text(poly@, i as nat),
        decreases length - i,
    {
        s.append("α");
        push_decimal(&mut s, poly[i] as usize);
        let degree = length - i - 1;
        if degree == 1 {
            s.append("x + ");
        } else if degree > 1 {
            s.append("x");
            push_decimal(&mut s, degree);
            s.append(" + ");
        }
        i = i + 1;
        assert(s@ =~= polynomial_text(poly@, i as nat));
    }
    s
}

} // verus!
