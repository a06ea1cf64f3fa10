//! Soundex phonetic codes for text tokens.
//!
//! A Soundex code is a short fingerprint of how a word sounds in English:
//! its first alphanumeric character, uppercased, followed by digits for
//! the consonant sound groups that come after it, with adjacent repeats
//! collapsed even across vowels. In default mode the code is cut to four
//! characters; in full mode every digit is kept. Either way the code is
//! padded with `'0'` to at least four characters, except that an empty
//! input gives an empty code.

pub mod classify;
pub mod encoder;
pub mod laws;

pub use classify::is_drop;
pub use classify::number_map;
pub use encoder::encode;
pub use encoder::equal;
pub use encoder::sounds_equal;
pub use encoder::Soundex;
