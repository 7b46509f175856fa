//! What one run of a capture session is started with.

use crate::text::{decimal, push_decimal};
use vstd::prelude::*;

verus! {

/// Number of chunks that may wait between the capture callback and the
/// worker.
pub const QUEUE_CAPACITY: usize = 16;

/// The parameters of one run: fixed when the run starts, never changed
/// while it lasts.
#[derive(Debug)]
pub struct SessionConfig {
    /// Name of the capture device.
    pub device: String,
    /// Samples per second that the device delivers.
    pub sample_rate: u32,
    /// Number of interleaved channels that the device delivers.
    pub channels: u16,
    /// Host that the bands are sent to.
    pub target_host: String,
    /// Port that the bands are sent to.
    pub target_port: u16,
}

/// A session configuration as plain values.
pub struct ConfigView {
    pub device: Seq<char>,
    pub sample_rate: u32,
    pub channels: u16,
    pub target_host: Seq<char>,
    pub target_port: u16,
}

impl View for SessionConfig {
    type V = ConfigView;

    open spec fn view(&self) -> ConfigView {
        ConfigView {
            device: self.device@,
            sample_rate: self.sample_rate,
            channels: self.channels,
            target_host: self.target_host@,
            target_port: self.target_port,
        }
    }
}

/// `host`, a colon, and `port` in decimal.
pub open spec fn socket_address(host: Seq<char>, port: nat) -> Seq<char> {
    host + seq![':'] + decimal(port)
}

impl SessionConfig {
    /// The address that the endpoint is connected to: the target host and
    /// the target port.
    pub fn target_address(&self) -> (address: String)
        ensures
            address@ == socket_address(self.target_host@, self.target_port as nat),
    {
        join_host_port(&self.target_host, self.target_port)
    }

    /// The local address that the endpoint is opened on: the target host
    /// with port 0, which lets the system pick a free port.
    pub fn bind_address(&self) -> (address: String)
        ensures
            address@ == socket_address(self.target_host@, 0),
    {
        join_host_port(&self.target_host, 0)
    }
}

/// Writes `host` and `port` as one socket address.
pub fn join_host_port(host: &String, port: u16) -> (address: String)
    ensures
        address@ == socket_address(host@, port as nat),
{
    proof {
        reveal_strlit(":");
    }
    let mut address = host.clone();
    address.append(":");
    push_decimal(&mut address, port as u64);
    address
}

} // verus!
