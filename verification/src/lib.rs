//! Backward scan of a chain for deployed contract bytecode, with every unique
//! bytecode stored once under its content hash.
//!
//! The library holds the decisions of the scan as state machines: each takes
//! the answer to its outstanding request and gives the next request. The
//! program around it performs the requests (chain queries, checkpoint reads and
//! writes, queue and table operations) and hands the answers back.

pub mod address;
pub mod checkpoint;
pub mod digest;
pub mod protocol;
pub mod scan;
pub mod progress;
pub mod walker;
pub mod world;
pub mod scan_laws;
pub mod save;
pub mod saver;
pub mod table;
pub mod opcode;
pub mod counting;
pub mod results;
pub mod commands;
pub mod system;
