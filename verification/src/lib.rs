//! Core logic of a vim-style directory browser.
//!
//! The library owns the browsing state and everything that can be said
//! about it: how a directory listing is ordered (directories first, then
//! case-insensitive by name), how the synthetic ".." parent row is
//! synthesized, and how key presses move the selection or change the
//! current path. Reading the filesystem, drawing, and decoding raw input
//! events belong to the surrounding application, which hands this library
//! plain values and gets plain values back.

pub mod display;
pub mod listing;
pub mod order;
pub mod path;
pub mod state;
