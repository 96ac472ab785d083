//! Dynamic dispatch for traits with `async fn` and `-> impl Trait` methods.
//!
//! The library takes a trait, modelled as plain values, and produces the
//! tokens of the `Dyn` struct, the erased trait and the bridge impls.

pub mod tokens;
pub mod attrs;
pub mod expand;
pub mod lifetime;
pub mod model;
pub mod print;
pub mod receiver;
pub mod sig;
pub mod traits;
pub mod where_clauses;
pub mod copying;
pub mod forward;
pub mod erased;
pub mod dyn_struct;
pub mod bridge;
pub mod item_parse;
pub mod expansion;
pub mod example;
pub mod laws;

pub use expansion::dynosaur;
