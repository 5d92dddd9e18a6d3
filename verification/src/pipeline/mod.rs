//! An ordered pipeline of steps over one shared state, the context.
//!
//! A step rewrites the context. Steps are composed either statically, as a
//! nested pair fixed when the processor is built, or dynamically, as a list
//! that grows by registration. Both run every step once, in order. Steps
//! that can refuse have a processor of their own, which stops at the first
//! refusal.
pub mod effects;
pub mod content;
pub mod step;
pub mod chain;
pub mod registry;
pub mod steps;
pub mod laws;
pub mod fallible;
