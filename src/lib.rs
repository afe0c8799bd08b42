//! A companion process library for a desktop host: a shared outbound
//! message queue, the wire envelope codec, and the decisions of the
//! runtime loop that owns the host connection.
use vstd::prelude::*;

pub mod queue;
pub mod wire;
pub mod extension;
pub mod handler;

verus! {

} // verus!
