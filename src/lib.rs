//! Small string utilities: grapheme-aware reversal, padding by a character or
//! by a cycled pattern, character-class predicates and case swapping.
mod ext;
pub mod laws;
pub mod model;
pub mod unicode;

pub use ext::{join_reversed, ExtString};
