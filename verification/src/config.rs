//! Configuration values of the agent and the server, with the documented
//! defaults.

use vstd::prelude::*;

verus! {

/// Seconds the uplink waits after a failed or closed connection before it
/// connects again. The back-off is fixed: this is an on-host control
/// path, not an internet client.
pub const RECONNECT_BACKOFF_SECS: u64 = 5;

/// What the agent runs with.
pub struct AgentConfig {
    /// `host:port` of the server.
    pub server: String,
    /// Capture device name, `any` for all interfaces.
    pub device: String,
    /// Per-packet capture byte limit.
    pub snapshot: i32,
    /// Put the interface in promiscuous mode.
    pub promiscuous: bool,
    /// Emit synthetic traffic instead of capturing.
    pub mock: bool,
    /// Include IPv6 packets.
    pub ipv6: bool,
    /// Flush threshold in records.
    pub batch_size: usize,
    /// Flush threshold in milliseconds.
    pub batch_interval_ms: u64,
}

impl AgentConfig {
    /// The agent's defaults.
    pub fn default_config() -> (c: AgentConfig)
        ensures
            c.server@ == "localhost:50051"@,
            c.device@ == "any"@,
            c.snapshot == 1024,
            !c.promiscuous,
            !c.mock,
            !c.ipv6,
            c.batch_size == 10000,
            c.batch_interval_ms == 100,
    {
        AgentConfig {
            server: "localhost:50051".to_owned(),
            device: "any".to_owned(),
            snapshot: 1024,
            promiscuous: false,
            mock: false,
            ipv6: false,
            batch_size: 10000,
            batch_interval_ms: 100,
        }
    }
}

/// What the server runs with.
pub struct ServerConfig {
    /// RPC listener port.
    pub grpc_port: u16,
    /// Side-car HTTP port.
    pub http_port: u16,
    /// Broadcast bus capacity.
    pub channel_capacity: usize,
    /// Inactivity hint surfaced to viewers, in seconds.
    pub peer_timeout_secs: u64,
}

impl ServerConfig {
    /// The server's defaults.
    pub fn default_config() -> (c: ServerConfig)
        ensures
            c.grpc_port == 50051,
            c.http_port == 8080,
            c.channel_capacity == 4096,
            c.peer_timeout_secs == 30,
    {
        ServerConfig {
            grpc_port: 50051,
            http_port: 8080,
            channel_capacity: 4096,
            peer_timeout_secs: 30,
        }
    }

    /// The inactivity hint as the configuration endpoint reports it:
    /// converted to milliseconds.
    pub fn peer_timeout_ms(&self) -> (ms: u64)
        requires
            self.peer_timeout_secs <= u64::MAX / 1000,
        ensures
            ms == self.peer_timeout_secs * 1000,
    {
        self.peer_timeout_secs * 1000
    }
}

} // verus!
