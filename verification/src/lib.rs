//! Price feed core: the rules by which a polling fetcher turns a provider's
//! answer into the latest price snapshot, and by which an HTTP server answers
//! from that snapshot.
//!
//! Nothing here touches the network or the disk. The fetcher's and the
//! server's processes perform the requests, reads and writes, and hand the
//! outcomes to the functions of this crate, which decide what follows.

pub mod amount;
pub mod clock;
pub mod fetcher;
pub mod provider;
pub mod server;
pub mod snapshot;
