//! Fixed values of the wire protocol.

use vstd::prelude::*;

verus! {

/// TCP port of the command channel.
pub const DEFAULT_PORT: u16 = 1255;

/// Start of every command line.
pub const CMD_PREFIX: &'static str = "heos://";

/// End of every command line and of every reply.
pub const CMD_POSTFIX: &'static str = "\r\n";

/// Search target that HEOS devices answer to.
pub const TARGET_URN: &'static str = "urn:schemas-denon-com:device:ACT-Denon:1";

/// The SSDP search request sent to the multicast group.
pub const DISCOVERY_REQUEST: &'static str = "M-SEARCH * HTTP/1.1\r\nHOST: 239.255.255.250:1900\r\nST: urn:schemas-denon-com:device:ACT-Denon:1\r\nMX: 5\r\nMAN: \"ssdp:discover\"\r\n\r\n";

/// SSDP multicast group address.
pub const SSDP_ADDR: [u8; 4] = [239, 255, 255, 250];

/// SSDP multicast port.
pub const SSDP_PORT: u16 = 1900;

} // verus!
