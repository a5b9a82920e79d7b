//! Small configuration value types.
use vstd::prelude::*;

verus! {

/// A duration given in whole seconds.
pub struct DurationSeconds(pub u64);

/// An IPv4 address of a device that always listens on port `PORT`.
pub struct Ipv4SocketAddr<const PORT: u16>(pub [u8; 4]);

impl<const PORT: u16> Ipv4SocketAddr<PORT> {
    /// The socket address: the IPv4 address and the port.
    pub fn socket_addr(&self) -> (res: ([u8; 4], u16))
        ensures
            res.0 == self.0,
            res.1 == PORT,
    {
        (self.0, PORT)
    }
}

} // verus!
