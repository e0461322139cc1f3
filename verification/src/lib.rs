pub mod game;
mod random;
