//! Dense polynomials over the scalar field of the BLS12-381 curve: the
//! arithmetic underneath KZG polynomial commitments.

pub mod error;
pub mod factor_certificates;
pub mod field_spec;
pub mod finite;
mod limbs;
pub mod modulus_certificate;
pub mod poly;
pub mod poly_spec;
pub mod primality;

pub use error::Error;
pub use finite::Fr;
pub use poly::Poly;
