//! Parsing of chess moves written in standard algebraic notation.
//!
//! A move string such as `Ra1xb1#` is split by a fixed grammar into five
//! fields, each field is checked by its own small parser, and the results are
//! assembled into one [`moves::Move`] value or one [`moves::MoveParseErr`].
pub mod actions;
pub mod grammar;
pub mod moves;
pub mod pieces;
pub mod positions;
pub mod session;
