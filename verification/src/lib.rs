//! Decision logic of a parallel directory scan: what one filesystem entry
//! turns into, how a directory fans out into further work, and the
//! producer-counted record queue whose closure tells the collector that every
//! piece of work has ended.
//!
//! Nothing here touches the filesystem, the clock or a thread. Callers read
//! the disk, hand the plain facts in, and carry out what comes back.

pub mod record;
pub mod entry;
pub mod fault;
pub mod channel;
pub mod walk;
pub mod collector;
pub mod snapshot;
pub mod elapsed;
