//! Planning of pattern-based bulk renames: the candidates and their proposed
//! names, the live pattern state, the validation of a proposed set, and the
//! confirmation workflow that gates the actual renames.
pub mod pattern;
pub mod item;
pub mod check;
pub mod confirm;
pub mod session;
