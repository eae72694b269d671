use vstd::prelude::*;

verus! {

/// The parameters of a traceroute measurement.
#[derive(Debug)]
pub struct TracerouteConfig {
    pub protocol: String,
    pub packets: u32,
    pub size: u32,
    pub first_hop: u32,
    pub max_hops: u32,
    pub paris: u32,
    pub dont_fragment: bool,
    pub port: Option<u16>,
}

/// Collects the parameters of a traceroute measurement one by one. The
/// protocol starts empty, numbers at zero, the flag off and the port unset.
#[derive(Debug)]
pub struct TracerouteConfigBuilder {
    pub protocol: String,
    pub packets: u32,
    pub size: u32,
    pub first_hop: u32,
    pub max_hops: u32,
    pub paris: u32,
    pub dont_fragment: bool,
    pub port: Option<u16>,
}

impl Default for TracerouteConfigBuilder {
    fn default() -> (r: Self)
        ensures
            r.is_blank(),
    {
        TracerouteConfigBuilder::new()
    }
}

impl TracerouteConfigBuilder {
    /// Nothing has been set.
    pub open spec fn is_blank(&self) -> bool {
        &&& self.protocol@.len() == 0
        &&& self.packets == 0
        &&& self.size == 0
        &&& self.first_hop == 0
        &&& self.max_hops == 0
        &&& self.paris == 0
        &&& !self.dont_fragment
        &&& self.port is None
    }

    pub fn new() -> (r: Self)
        ensures
            r.is_blank(),
    {
        TracerouteConfigBuilder {
            protocol: String::new(),
            packets: 0,
            size: 0,
            first_hop: 0,
            max_hops: 0,
            paris: 0,
            dont_fragment: false,
            port: None,
        }
    }

    pub fn protocol(self, protocol: String) -> (r: Self)
        ensures
            r == (TracerouteConfigBuilder { protocol, ..self }),
    {
        TracerouteConfigBuilder { protocol, ..self }
    }

    pub fn packets(self, packets: u32) -> (r: Self)
        ensures
            r == (TracerouteConfigBuilder { packets, ..self }),
    {
        TracerouteConfigBuilder { packets, ..self }
    }

    pub fn size(self, size: u32) -> (r: Self)
        ensures
            r == (TracerouteConfigBuilder { size, ..self }),
    {
        TracerouteConfigBuilder { size, ..self }
    }

    pub fn first_hop(self, first_hop: u32) -> (r: Self)
        ensures
            r == (TracerouteConfigBuilder { first_hop, ..self }),
    {
        TracerouteConfigBuilder { first_hop, ..self }
    }

    pub fn max_hops(self, max_hops: u32) -> (r: Self)
        ensures
            r == (TracerouteConfigBuilder { max_hops, ..self }),
    {
        TracerouteConfigBuilder { max_hops, ..self }
    }

    pub fn paris(self, paris: u32) -> (r: Self)
        ensures
            r == (TracerouteConfigBuilder { paris, ..self }),
    {
        TracerouteConfigBuilder { paris, ..self }
    }

    pub fn dont_fragment(self, dont_fragment: bool) -> (r: Self)
        ensures
            r == (TracerouteConfigBuilder { dont_fragment, ..self }),
    {
        TracerouteConfigBuilder { dont_fragment, ..self }
    }

    pub fn port(self, port: Option<u16>) -> (r: Self)
        ensures
            r == (TracerouteConfigBuilder { port, ..self }),
    {
        TracerouteConfigBuilder { port, ..self }
    }

    pub fn build(self) -> (config: TracerouteConfig)
        ensures
            config == (TracerouteConfig {
                protocol: self.protocol,
                packets: self.packets,
                size: self.size,
                first_hop: self.first_hop,
                max_hops: self.max_hops,
                paris: self.paris,
                dont_fragment: self.dont_fragment,
                port: self.port,
            }),
    {
        TracerouteConfig {
            protocol: self.protocol,
            packets: self.packets,
            size: self.size,
            first_hop: self.first_hop,
            max_hops: self.max_hops,
            paris: self.paris,
            dont_fragment: self.dont_fragment,
            port: self.port,
        }
    }
}

} // verus!
