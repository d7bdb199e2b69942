//! A text-mode display writer over an 80 x 25 grid of character cells.
//!
//! Every cell access goes through `volatile::Volatile`, so that writes to the
//! grid are never merged or elided.
pub mod codec;
pub mod writer;
pub mod lemmas;
