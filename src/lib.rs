//! Game core of a glider arcade: a gravity-bound player, waves of obstacles
//! and collectibles, a trivia gate that decides revival after each death,
//! and the state machine that drives them one frame at a time.
pub mod entity;
pub mod game;
pub mod player;
pub mod quiz;
mod random;
