//! Decoder for the BMG binary message-container format: a byte-order-aware
//! container reader, a message table, an escape-code text decoder, and a
//! flow-graph renderer with a shared visited set.
use vstd::prelude::*;

pub mod binary;
pub mod bmg;
pub mod flow;
pub mod font;
pub mod text;
pub mod textutil;

verus! {

} // verus!
