//! Updates of sealed sectors: putting data into a sector and taking it out again, and proving and
//! checking that this was done.
//!
//! The library makes every decision of an update and performs no input or output. An operation
//! starts with a function that says what is to be read or computed first; what came of it goes to
//! the stage that the function returned, which says what comes next, up to the result of the
//! operation or its error. What an operation hands to each outside step, and how it ends for each
//! outcome of these steps, is stated in the contracts of its stages.
//!
//! * [`data`]: encoding data, decoding it, removing it;
//! * [`partition`]: vanilla proofs, of one partition or of all;
//! * [`succinct`]: succinct proofs, and [`proof_bytes`], their serialized form;
//! * [`cache`]: what is read from the cache of a sector, and where new trees go;
//! * [`laws`]: what holds across the operations, and [`steps`], what each step of them is given;
//! * [`outside`]: what is relied on of other crates, without proof.

pub mod cache;
pub mod data;
pub mod error;
pub mod laws;
pub mod outcome;
pub mod outside;
pub mod partition;
pub mod proof_bytes;
pub mod proving;
pub mod sector;
pub mod steps;
pub mod succinct;
pub mod tree_len;
pub mod types;
