//! Codeword layer of a QR code encoder: Reed–Solomon error correction over
//! GF(256), block interleaving, mode selection and the standard's tables.

pub mod encode;
pub mod generators;
pub mod hardcode;
pub mod gf256;
pub mod polynomials;
pub mod vecl;
pub mod version;
pub mod eye_shape;
pub mod format_code;
