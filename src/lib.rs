//! Conditioning of user-supplied seed strings for a Base58 setting.
//!
//! A seed is accepted when every character is an ASCII digit other than
//! zero or an ASCII letter. Accepted seeds are rewritten one character at a
//! time: an upper-case `O` becomes `o` and a lower-case `l` becomes `L`.

pub mod alphabet;
pub mod seed;

pub use alphabet::AlphabetTable;
pub use seed::b58ify;
