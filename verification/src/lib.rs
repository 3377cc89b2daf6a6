//! A sponge-construction hash over a small prime field, for callers whose
//! inputs and digests are field elements rather than bytes. Two
//! domain-separated modes are offered: arbitrary-length hashing with an
//! always-applied padding rule, and a padding-free fixed 10-element mode.

pub mod belt;
pub mod math_error;
pub mod tip5;

pub use belt::based_check;
pub use belt::Belt;
pub use belt::FieldError;
pub use belt::PRIME;
pub use belt::PRIME_128;
pub use math_error::MathError;
pub use math_error::MathResult;
