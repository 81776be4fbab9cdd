//! The one request this library sends: a dump of every IPv6 interface
//! address, with all filtering left to the selection policy.

use vstd::prelude::*;
use crate::record::AF_INET6;

verus! {

/// Message type that asks for interface addresses (`RTM_GETADDR`).
pub const RTM_GETADDR: u16 = 22;

/// Header flag of a request message (`NLM_F_REQUEST`).
pub const NLM_F_REQUEST: u16 = 0x01;

/// Header flag that asks for every matching entry (`NLM_F_DUMP`).
pub const NLM_F_DUMP: u16 = 0x300;

/// The fields of an address-dump request: the header's type and flags, and
/// the fixed body of an interface-address message with no attributes.
pub struct DumpRequest {
    pub msg_type: u16,
    pub nl_flags: u16,
    pub family: u8,
    pub prefix_len: u8,
    pub flags: u8,
    pub scope: u8,
    pub index: u32,
}

/// Builds the request for a dump of all IPv6 addresses on all interfaces:
/// a request with the dump flag, family IPv6, and every filter field zero.
pub fn build_dump_request() -> (req: DumpRequest)
    ensures
        req.msg_type == RTM_GETADDR,
        req.nl_flags == NLM_F_REQUEST | NLM_F_DUMP,
        req.nl_flags == 0x301,
        req.family == AF_INET6,
        req.prefix_len == 0,
        req.flags == 0,
        req.scope == 0,
        req.index == 0,
{
    let nl_flags = NLM_F_REQUEST | NLM_F_DUMP;
    assert(NLM_F_REQUEST | NLM_F_DUMP == 0x301u16) by (bit_vector);
    DumpRequest {
        msg_type: RTM_GETADDR,
        nl_flags,
        family: AF_INET6,
        prefix_len: 0,
        flags: 0,
        scope: 0,
        index: 0,
    }
}

} // verus!
