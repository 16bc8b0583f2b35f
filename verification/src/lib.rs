//! A pull-based audio source core for a network video/audio transport
//! receiver.
//!
//! The library models the receiver-multiplexing and frame-acquisition state
//! machine of such a source: a registry of live receiver connections shared
//! by several adapter instances, the per-call policy that turns a stream of
//! captured frames into timestamped PCM buffers, and the epoch-based
//! timestamp synchronization that tolerates intermittent frame loss.
//!
//! The network SDK itself is an outside capability: the host hands its
//! results (connection handles, captured frames) to the library as plain
//! values, and the library decides what to do with them.

pub mod adapter;
pub mod frame;
pub mod laws;
pub mod produce;
pub mod registry;
