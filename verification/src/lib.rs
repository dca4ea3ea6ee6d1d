//! Registration of a file's content identifier on a ledger contract.
//!
//! A run uploads a file to a content-addressable store, deploys a small
//! storage contract, records the identifier that the store assigned in it,
//! waits until the transaction is final and reads the value back. This
//! library holds every decision of such a run as a state machine and leaves
//! the work on the network to a driver: the driver hands each outcome to the
//! machine as an [`pipeline::Event`] and performs the [`pipeline::Action`]
//! that it gets back.
//!
//! - [`model`] is the machine as mathematics, and [`laws`] what is proved of
//!   each of its runs;
//! - [`pipeline`] is the machine as executable code, proved to compute the
//!   model;
//! - [`budget`], [`values`] and [`failure`] hold the plain data;
//! - [`interface`] describes the contract's entry points, and [`arguments`]
//!   the command line.

pub mod arguments;
pub mod budget;
pub mod failure;
pub mod interface;
pub mod laws;
pub mod model;
pub mod pipeline;
pub mod values;
