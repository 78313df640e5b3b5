//! Core of a screen-streaming pipeline: a dirty-rectangle frame buffer, a
//! chunked wire codec over lossy datagrams, reassembly, session liveness and
//! frame pacing. Everything here is pure logic; sockets, capture and display
//! live with the callers.

use vstd::prelude::*;

pub mod codec;
pub mod fps;
pub mod reassembly;
pub mod region;
pub mod session;
pub mod signal;
pub mod util;

pub use region::Region;
pub use region::RegionHeader;

verus! {

/// Default port of the datagram channel (arbitrary dynamic port).
pub const UDP_PORT: u16 = 54287;

/// Fixed size, in bytes, of one uncompressed payload fragment.
pub const UDP_CHUNK_SIZE: usize = 36_864;

/// One second, in nanoseconds: the unit the pacing code counts in.
pub const SECOND_NANOS: u64 = 1_000_000_000;

} // verus!
