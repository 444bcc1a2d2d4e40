//! A progress-display adapter for lazy sequence producers.
//!
//! A `Progress` adapter wraps a sequence producer and, on every production
//! step, yields the text of a progress bar to be drawn before the next item
//! is handed out. The bar is rendered by a pluggable bound strategy: an
//! unbounded strategy draws a bar that only grows, a bounded strategy draws
//! a fixed-width bar between delimiters, filled in proportion to how many
//! items have been produced.

pub mod adapter;
pub mod producer;
pub mod state;
