//! Stripping the grammatical noun-class prefix from a Zulu noun to recover
//! its lexical base, optionally guided by a known noun class.

pub mod catalog;
pub mod engine;
pub mod fold;
pub mod laws;
pub mod model;

pub use catalog::{NounClass, NounClassError, NounClassPrefix};
pub use engine::{guess_noun_base, trim_best_match};
