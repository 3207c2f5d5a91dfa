//! Static network configuration: the board and host addresses of the fixed
//! lab network layout (no DHCP).

use vstd::prelude::*;
use crate::consts::{BOARD_IP, HOST_IP};
use crate::utils::Ipv4Address;

verus! {

/// Returns the management IP of the STM32 BMC.
pub fn get_board_ip() -> (r: Ipv4Address)
    ensures
        r.octets@ == BOARD_IP@,
{
    let r = Ipv4Address::new(BOARD_IP[0], BOARD_IP[1], BOARD_IP[2], BOARD_IP[3]);
    assert(r.octets@ =~= BOARD_IP@);
    r
}

/// Returns the host PC address used by the remote image backend.
pub fn get_host_ip() -> (r: Ipv4Address)
    ensures
        r.octets@ == HOST_IP@,
{
    let r = Ipv4Address::new(HOST_IP[0], HOST_IP[1], HOST_IP[2], HOST_IP[3]);
    assert(r.octets@ =~= HOST_IP@);
    r
}

} // verus!
