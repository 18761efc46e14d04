//! What the backend is configured with, and how connections are told apart.

use vstd::prelude::*;

verus! {

/// This structure is the public API through which an external program
/// is allowed to configure the backend
#[derive(Debug)]
pub struct VsockConfig {
    guest_cid: u64,
    socket: String,
    uds_path: String,
}

/// What a configuration says.
#[verifier::ext_equal]
pub struct ConfigView {
    /// CID of the guest
    pub guest_cid: u64,
    /// Path of the socket for the hypervisor
    pub socket: Seq<char>,
    /// Path of the socket for host-side applications
    pub uds_path: Seq<char>,
}

impl View for VsockConfig {
    type V = ConfigView;

    closed spec fn view(&self) -> ConfigView {
        ConfigView {
            guest_cid: self.guest_cid,
            socket: self.socket@,
            uds_path: self.uds_path@,
        }
    }
}

impl VsockConfig {
    /// Create a new instance of the VsockConfig struct, containing the
    /// parameters to be fed into the vsock-backend server
    pub fn new(guest_cid: u64, socket: String, uds_path: String) -> (r: Self)
        ensures
            r@ == (ConfigView { guest_cid, socket: socket@, uds_path: uds_path@ }),
    {
        VsockConfig { guest_cid, socket, uds_path }
    }

    /// Return the guest's current CID
    pub fn get_guest_cid(&self) -> (r: &u64)
        ensures
            *r == self@.guest_cid,
    {
        &self.guest_cid
    }

    /// Return the path of the unix domain socket which is listening to
    /// requests from the host side application
    pub fn get_uds_path(&self) -> (r: &str)
        ensures
            r@ == self@.uds_path,
    {
        self.uds_path.as_str()
    }

    /// Return the path of the unix domain socket which is listening to
    /// requests from the guest.
    pub fn get_socket_path(&self) -> (r: &str)
        ensures
            r@ == self@.socket,
    {
        self.socket.as_str()
    }
}

/// A local port and peer port pair used to retrieve
/// the corresponding connection
#[derive(Hash, PartialEq, Eq, Structural, Debug, Clone, Copy)]
pub struct ConnMapKey {
    /// Port on the host
    pub local_port: u32,
    /// Port in the guest
    pub peer_port: u32,
}

impl ConnMapKey {
    /// The pair as one number, the local port in its upper half.
    pub open spec fn id(self) -> u64 {
        (self.local_port * 0x1_0000_0000 + self.peer_port) as u64
    }

    /// The key of the connection between these ports
    pub fn new(local_port: u32, peer_port: u32) -> (r: Self)
        ensures
            r == (ConnMapKey { local_port, peer_port }),
    {
        Self { local_port, peer_port }
    }

    /// The number under which the connection is filed
    pub fn code(&self) -> (r: u64)
        ensures
            r == self.id(),
    {
        self.local_port as u64 * 0x1_0000_0000 + self.peer_port as u64
    }
}

/// No two port pairs are filed under the same number.
pub proof fn law_key_id(a: ConnMapKey, b: ConnMapKey)
    ensures
        a.id() == b.id() <==> a == b,
        a.id() == a.local_port * 0x1_0000_0000 + a.peer_port,
{
}

} // verus!
