//! The broadcaster model: the fixed destination chosen at construction, and
//! the exact datagram body built for each frame.
//!
//! The socket itself is an operating-system resource handled by the
//! embedding layer: it binds a fresh UDP socket to an OS-chosen local port,
//! enables the broadcast option, and writes each body returned by
//! [`Broadcaster::datagram`] to the loopback address at the broadcaster's
//! `target_port`, discarding the write's result. The destination never
//! changes after construction: no operation here takes the broadcaster
//! mutably.

use vstd::prelude::*;

use crate::wire::wire_json;
use crate::wire::WireData;

verus! {

/// The per-session broadcaster state: one fixed destination port.
pub struct Broadcaster {
    pub target_port: u16,
}

impl Broadcaster {
    /// Fixes the destination port for the session.
    pub fn new(port: u16) -> (b: Broadcaster)
        ensures
            b.target_port == port,
    {
        Broadcaster { target_port: port }
    }

    /// The exact body of the datagram sent for one frame. Total: building
    /// the message cannot fail, whatever the payload holds, so a frame is
    /// only ever lost in transmission, never in construction.
    pub fn datagram(&self, data: &WireData) -> (r: String)
        ensures
            r@ == wire_json(data@),
    {
        data.to_json()
    }
}

} // verus!
