use vstd::prelude::*;

verus! {

/// The parameters of a ping measurement.
#[derive(Debug)]
pub struct PingConfig {
    pub packet_count: u32,
    pub size: u32,
}

/// Collects the parameters of a ping measurement one by one. Both start at
/// zero.
#[derive(Debug)]
pub struct PingConfigBuilder {
    pub packet_count: u32,
    pub size: u32,
}

impl Default for PingConfigBuilder {
    fn default() -> (r: Self)
        ensures
            r == (PingConfigBuilder { packet_count: 0, size: 0 }),
    {
        PingConfigBuilder { packet_count: 0, size: 0 }
    }
}

impl PingConfigBuilder {
    pub fn new() -> (r: Self)
        ensures
            r == (PingConfigBuilder { packet_count: 0, size: 0 }),
    {
        PingConfigBuilder { packet_count: 0, size: 0 }
    }

    pub fn packet_count(self, val: u32) -> (r: Self)
        ensures
            r == (PingConfigBuilder { packet_count: val, ..self }),
    {
        PingConfigBuilder { packet_count: val, ..self }
    }

    pub fn size(self, val: u32) -> (r: Self)
        ensures
            r == (PingConfigBuilder { size: val, ..self }),
    {
        PingConfigBuilder { size: val, ..self }
    }

    pub fn build(self) -> (config: PingConfig)
        ensures
            config == (PingConfig { packet_count: self.packet_count, size: self.size }),
    {
        PingConfig { packet_count: self.packet_count, size: self.size }
    }
}

} // verus!
