//! A chess move-search engine core: scores, a transposition table and a
//! principal-variation search, with contracts checked by Verus.

pub mod display;
pub mod driver;
pub mod evaluation;
pub mod ordering;
pub mod quiescence;
pub mod rules;
pub mod score;
pub mod search;
pub mod tables;
pub mod text;
pub mod transposition;
pub mod types;
pub mod utils;
pub mod variation;
