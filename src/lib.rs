//! Runtime core of a USB/NFC security-token firmware: staged peripheral
//! bring-up, a crash-safe journaled flash store, and the priority-ceiling
//! task layer that pumps transports into the application dispatcher.
use vstd::prelude::*;

pub mod status;
pub mod storage;
pub mod board;
pub mod transport;
pub mod sched;
pub mod bringup;
pub mod runner;

verus! {

} // verus!
