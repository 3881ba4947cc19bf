//! Classification of the long-run behavior of one-dimensional discrete
//! dynamical systems: iterate a self-map of the number line from a seed,
//! discard a transient prefix, and decide whether the tail collapses to a
//! fixed point, settles into a finite cycle, or never repeats within the
//! observed window.

pub mod behavior;
pub mod close;
pub mod iterate;
pub mod laws;
pub mod maps;
