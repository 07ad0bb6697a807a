//! Back end of a compiler whose target is an interaction-combinator network.
//!
//! A compiled unit arrives as a small state machine of stages connected
//! through control-transfer interfaces (the [`vir`] module).  The emission
//! engine (the [`emit`] module) lowers each stage into a named network: a
//! root node plus an unordered list of paired equations over the node
//! language of the [`net`] module.  Per-variable bookkeeping that turns a
//! sequence of reads and writes into a balanced set of paired equations
//! lives in [`linear`]; the walking half of the lowering in [`lower`];
//! the step dispatcher, transfer resolution and per-specialization
//! driver in [`engine`]; deterministic network naming in [`names`];
//! proved laws of the engine in [`laws`].

pub mod emit;
pub mod engine;
pub mod laws;
pub mod linear;
pub mod lower;
pub mod names;
pub mod net;
pub mod vir;
