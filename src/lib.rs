//! Stacking tic-tac-toe: a larger piece may cap a strictly smaller one.
//! `game` holds the rules, `symmetry` the board transformations, `solver` a
//! minimax player with a cache of answers, and `io` the text form of a move.
pub mod game;
pub mod io;
pub mod solver;
pub mod symmetry;
