//! An unbounded blocking channel from any number of producers to one
//! consumer, in two variants that differ in how each side learns that the
//! other is gone.
//!
//! `model` states what a channel does as a sequential state machine, and
//! `laws` proves what holds of it; `queue` holds the verified steps on the queues
//! themselves; `sync` declares the synchronisation primitives that the
//! handles are built from; `channel_v1` and `channel_v2` are the two variants.
pub mod channel_v1;
pub mod channel_v2;
pub mod error;
pub mod laws;
pub mod model;
pub mod queue;
pub mod sync;
