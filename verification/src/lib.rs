//! Random password and username generation.
//!
//! The library builds a sampling alphabet from named character sets, draws
//! uniformly random characters or dictionary words through a random number
//! generator, and renders the result together with a clipboard status line.

pub mod charset;
pub mod errors;
pub mod password;
pub mod report;
mod rng;
pub mod text;
pub mod username;

pub use charset::CharSet;
pub use charset::get_char_set;
pub use errors::GenerationError;
