use crate::common::configuration::anchors::Anchors;
use crate::common::configuration::http::HttpConfig;
use crate::common::configuration::ping::PingConfig;
use crate::common::configuration::probes::Probes;
use crate::common::configuration::topology::Topology;
use crate::common::configuration::traceroute::TracerouteConfig;
use vstd::prelude::*;

verus! {

/// A measurement intent.
///
/// `start_time` and `end_time` bound the scheduling window; each is a count
/// of seconds since the Unix epoch, in UTC. A part that is `None` was not
/// configured.
#[derive(Debug)]
pub struct Configuration {
    pub start_time: Option<i64>,
    pub end_time: Option<i64>,
    pub interval: Option<u32>,
    pub mode: Option<String>,
    pub ping_configuration: Option<PingConfig>,
    pub http_configuration: Option<HttpConfig>,
    pub traceroute_configuration: Option<TracerouteConfig>,
    pub probes: Option<Probes>,
    pub anchors: Option<Anchors>,
    pub topology: Option<Topology>,
}

/// Collects the parts of a [`Configuration`] one by one. Every part starts
/// unset.
#[derive(Debug)]
pub struct ConfigBuilder {
    pub start_time: Option<i64>,
    pub end_time: Option<i64>,
    pub interval: Option<u32>,
    pub mode: Option<String>,
    pub ping_configuration: Option<PingConfig>,
    pub http_configuration: Option<HttpConfig>,
    pub traceroute_configuration: Option<TracerouteConfig>,
    pub probes: Option<Probes>,
    pub anchors: Option<Anchors>,
    pub topology: Option<Topology>,
}

impl Default for ConfigBuilder {
    fn default() -> (r: Self)
        ensures
            r.is_blank(),
    {
        ConfigBuilder::new()
    }
}

impl ConfigBuilder {
    /// No part has been set.
    pub open spec fn is_blank(&self) -> bool {
        &&& self.start_time is None
        &&& self.end_time is None
        &&& self.interval is None
        &&& self.mode is None
        &&& self.ping_configuration is None
        &&& self.http_configuration is None
        &&& self.traceroute_configuration is None
        &&& self.probes is None
        &&& self.anchors is None
        &&& self.topology is None
    }

    pub fn new() -> (r: Self)
        ensures
            r.is_blank(),
    {
        ConfigBuilder {
            start_time: None,
            end_time: None,
            interval: None,
            mode: None,
            ping_configuration: None,
            http_configuration: None,
            traceroute_configuration: None,
            probes: None,
            anchors: None,
            topology: None,
        }
    }

    pub fn start_time(self, val: i64) -> (r: Self)
        ensures
            r == (ConfigBuilder { start_time: Some(val), ..self }),
    {
        ConfigBuilder { start_time: Some(val), ..self }
    }

    pub fn end_time(self, val: i64) -> (r: Self)
        ensures
            r == (ConfigBuilder { end_time: Some(val), ..self }),
    {
        ConfigBuilder { end_time: Some(val), ..self }
    }

    pub fn interval(self, val: u32) -> (r: Self)
        ensures
            r == (ConfigBuilder { interval: Some(val), ..self }),
    {
        ConfigBuilder { interval: Some(val), ..self }
    }

    pub fn mode(self, val: String) -> (r: Self)
        ensures
            r == (ConfigBuilder { mode: Some(val), ..self }),
    {
        ConfigBuilder { mode: Some(val), ..self }
    }

    pub fn ping_configuration(self, val: PingConfig) -> (r: Self)
        ensures
            r == (ConfigBuilder { ping_configuration: Some(val), ..self }),
    {
        ConfigBuilder { ping_configuration: Some(val), ..self }
    }

    pub fn http_configuration(self, val: HttpConfig) -> (r: Self)
        ensures
            r == (ConfigBuilder { http_configuration: Some(val), ..self }),
    {
        ConfigBuilder { http_configuration: Some(val), ..self }
    }

    pub fn traceroute_configuration(self, val: TracerouteConfig) -> (r: Self)
        ensures
            r == (ConfigBuilder { traceroute_configuration: Some(val), ..self }),
    {
        ConfigBuilder { traceroute_configuration: Some(val), ..self }
    }

    pub fn probes(self, val: Probes) -> (r: Self)
        ensures
            r == (ConfigBuilder { probes: Some(val), ..self }),
    {
        ConfigBuilder { probes: Some(val), ..self }
    }

    pub fn anchors(self, val: Anchors) -> (r: Self)
        ensures
            r == (ConfigBuilder { anchors: Some(val), ..self }),
    {
        ConfigBuilder { anchors: Some(val), ..self }
    }

    pub fn topology(self, val: Topology) -> (r: Self)
        ensures
            r == (ConfigBuilder { topology: Some(val), ..self }),
    {
        ConfigBuilder { topology: Some(val), ..self }
    }

    /// The collected parts. Nothing is validated, so this never fails.
    pub fn build(self) -> (config: Result<Configuration, &'static str>)
        ensures
            config == Ok::<Configuration, &'static str>(
                Configuration {
                    start_time: self.start_time,
                    end_time: self.end_time,
                    interval: self.interval,
                    mode: self.mode,
                    ping_configuration: self.ping_configuration,
                    http_configuration: self.http_configuration,
                    traceroute_configuration: self.traceroute_configuration,
                    probes: self.probes,
                    anchors: self.anchors,
                    topology: self.topology,
                },
            ),
    {
        Ok(
            Configuration {
                start_time: self.start_time,
                end_time: self.end_time,
                interval: self.interval,
                mode: self.mode,
                ping_configuration: self.ping_configuration,
                http_configuration: self.http_configuration,
                traceroute_configuration: self.traceroute_configuration,
                probes: self.probes,
                anchors: self.anchors,
                topology: self.topology,
            },
        )
    }
}

} // verus!
