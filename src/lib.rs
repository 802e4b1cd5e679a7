//! A fixed-size character-cell display driven over a slow byte link: a
//! double-buffered grid with a minimal-diff renderer, a deadline-ordered timer
//! queue, and a menu that dispatches input to at most one active screen.
pub mod screen;
pub mod timers;
pub mod state;
pub mod chat;
pub mod printer;
pub mod menu;
pub mod keyboard;
