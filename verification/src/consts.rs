use vstd::prelude::*;

use crate::net::Endpoint;
use crate::net::HostIp;

verus! {

/// Default multicast port on which the simulator announces itself.
pub const XP_MULTICAST_PORT: u16 = 49707;

/// How many per-attempt timeouts discovery tolerates before giving up.
pub const XP_MULTICAST_TIMEOUT_MAX_TRIES: i32 = 3;

/// How many malformed beacon datagrams discovery tolerates before giving up.
pub const XP_MULTICAST_PARSE_MAX_TRIES: i32 = 3;

/// Port on which the simulator receives commands and subscriptions.
pub const XP_DEFAULT_RECEIVING_PORT: u16 = 49000;

/// Default port from which the simulator sends data back to a client.
pub const XP_DEFAULT_SENDING_PORT: u16 = 49001;

/// Size of the receive buffer used for beacon datagrams.
pub const STANDARD_BUFFER_SIZE: usize = 1024;

/// Fixed capacity of the name field in a subscribe-request datagram.
pub const SUBSCRIBE_NAME_CAPACITY: usize = 400;

/// Fixed capacity of each of the four line fields of an alert datagram.
pub const ALERT_LINE_CAPACITY: usize = 240;

/// The default multicast group and port, `239.255.1.1:49707`.
pub open spec fn spec_xp_multicast_addr() -> Endpoint {
    Endpoint { ip: HostIp::V4(239, 255, 1, 1), port: XP_MULTICAST_PORT }
}

pub fn xp_multicast_addr() -> (e: Endpoint)
    ensures
        e == spec_xp_multicast_addr(),
{
    Endpoint { ip: HostIp::V4(239, 255, 1, 1), port: XP_MULTICAST_PORT }
}

} // verus!
