//! The questions for a traceroute measurement.

use crate::common::configuration::traceroute::TracerouteConfig;
use crate::text::chars::{eq_ignore_ascii_case, same_ignoring_ascii_case};
use vstd::prelude::*;
use vstd::string::*;

verus! {

/// Whether a port is to be asked for: only TCP takes one. The case of the
/// protocol's name does not count.
pub fn asks_for_port(protocol: &str) -> (asks: bool)
    ensures
        asks == same_ignoring_ascii_case(protocol@, "TCP"@),
{
    eq_ignore_ascii_case(protocol, "TCP")
}

/// The traceroute parameters that the answers amount to. An answer for the
/// port counts only where the protocol takes one.
pub fn traceroute_config(
    protocol: String,
    packets: u32,
    size: u32,
    first_hop: u32,
    max_hops: u32,
    paris: u32,
    dont_fragment: bool,
    port: Option<u16>,
) -> (config: TracerouteConfig)
    ensures
        config == (TracerouteConfig {
            protocol,
            packets,
            size,
            first_hop,
            max_hops,
            paris,
            dont_fragment,
            port: if same_ignoring_ascii_case(protocol@, "TCP"@) {
                port
            } else {
                None
            },
        }),
{
    let port = if asks_for_port(protocol.as_str()) {
        port
    } else {
        None
    };
    TracerouteConfig { protocol, packets, size, first_hop, max_hops, paris, dont_fragment, port }
}

/// The protocols that are offered: ICMP, UDP and TCP.
pub fn offered_protocols() -> (offered: &'static [&'static str])
    ensures
        offered@.len() == 3,
        offered@[0]@ == "ICMP"@,
        offered@[1]@ == "UDP"@,
        offered@[2]@ == "TCP"@,
{
    let offered: &'static [&'static str] = &["ICMP", "UDP", "TCP"];
    offered
}

/// The place of the default among the offered protocols: UDP.
pub const DEFAULT_PROTOCOL: usize = 1;

} // verus!
