//! The measurement definitions that the platform accepts, one shape per
//! measurement type.

use crate::common::configuration::http::HttpVersion;
use vstd::prelude::*;
use vstd::string::*;

verus! {

/// A measurement bound to its target, of one of the three types.
#[derive(Debug)]
pub enum Definition {
    Ping(PingDefinition),
    Http(HttpDefinition),
    Traceroute(TracerouteDefinition),
}

/// A measurement that has no target yet, of one of the three types.
#[derive(Debug)]
pub enum DefinitionTemplate {
    Ping(PingDefinition),
    Http(HttpDefinition),
    Traceroute(TracerouteDefinition),
}

/// The mathematical content of a [`Definition`] or a [`DefinitionTemplate`].
pub enum DefinitionView {
    Ping(PingDefinitionView),
    Http(HttpDefinitionView),
    Traceroute(TracerouteDefinitionView),
}

impl View for Definition {
    type V = DefinitionView;

    open spec fn view(&self) -> DefinitionView {
        match self {
            Definition::Ping(d) => DefinitionView::Ping(d@),
            Definition::Http(d) => DefinitionView::Http(d@),
            Definition::Traceroute(d) => DefinitionView::Traceroute(d@),
        }
    }
}

impl View for DefinitionTemplate {
    type V = DefinitionView;

    open spec fn view(&self) -> DefinitionView {
        match self {
            DefinitionTemplate::Ping(d) => DefinitionView::Ping(d@),
            DefinitionTemplate::Http(d) => DefinitionView::Http(d@),
            DefinitionTemplate::Traceroute(d) => DefinitionView::Traceroute(d@),
        }
    }
}

/// The definition that a template becomes when it is bound to `target`:
/// the same measurement with that target.
pub open spec fn bound_to(template: DefinitionView, target: Seq<char>) -> DefinitionView {
    match template {
        DefinitionView::Ping(d) => DefinitionView::Ping(PingDefinitionView { target, ..d }),
        DefinitionView::Http(d) => DefinitionView::Http(HttpDefinitionView { target, ..d }),
        DefinitionView::Traceroute(d) => DefinitionView::Traceroute(
            TracerouteDefinitionView { target, ..d },
        ),
    }
}

impl DefinitionTemplate {
    /// Binds the template to `target`.
    pub fn with_target(&self, target: &str) -> (definition: Definition)
        ensures
            definition@ == bound_to(self@, target@),
    {
        match self {
            DefinitionTemplate::Ping(ping_definition) => Definition::Ping(
                ping_definition.retargeted(target),
            ),
            DefinitionTemplate::Http(http_definition) => Definition::Http(
                http_definition.retargeted(target),
            ),
            DefinitionTemplate::Traceroute(traceroute_definition) => Definition::Traceroute(
                traceroute_definition.retargeted(target),
            ),
        }
    }
}

/// A copy of an optional list of tags.
fn clone_tags(tags: &Option<Vec<String>>) -> (r: Option<Vec<String>>)
    ensures
        r.deep_view() == tags.deep_view(),
{
    match tags {
        Some(list) => {
            let copy = list.clone();
            assert(copy.deep_view() =~= list.deep_view());
            Some(copy)
        },
        None => None,
    }
}

/// A ping measurement: how many packets of which size to send.
///
/// As a template the target is empty; a definition is a template bound to
/// a target.
#[derive(Debug, Clone)]
pub struct PingDefinition {
    pub definition_type: String,
    pub af: u8,
    pub description: String,
    pub resolve_on_probe: bool,
    pub packets: u32,
    pub size: u32,
    pub skip_dns_check: bool,
    pub include_probe_id: bool,
    pub target: String,
    pub tags: Option<Vec<String>>,
    pub interval: Option<u32>,
}

/// The mathematical content of a [`PingDefinition`].
pub struct PingDefinitionView {
    pub definition_type: Seq<char>,
    pub af: u8,
    pub description: Seq<char>,
    pub resolve_on_probe: bool,
    pub packets: u32,
    pub size: u32,
    pub skip_dns_check: bool,
    pub include_probe_id: bool,
    pub target: Seq<char>,
    pub tags: Option<Seq<Seq<char>>>,
    pub interval: Option<u32>,
}

impl View for PingDefinition {
    type V = PingDefinitionView;

    open spec fn view(&self) -> PingDefinitionView {
        PingDefinitionView {
            definition_type: self.definition_type@,
            af: self.af,
            description: self.description@,
            resolve_on_probe: self.resolve_on_probe,
            packets: self.packets,
            size: self.size,
            skip_dns_check: self.skip_dns_check,
            include_probe_id: self.include_probe_id,
            target: self.target@,
            tags: self.tags.deep_view(),
            interval: self.interval,
        }
    }
}

/// The ping template before anything is set.
pub open spec fn ping_defaults() -> PingDefinitionView {
    PingDefinitionView {
        definition_type: "ping"@,
        af: 4,
        description: Seq::empty(),
        resolve_on_probe: true,
        packets: 3,
        size: 48,
        skip_dns_check: false,
        include_probe_id: false,
        target: Seq::empty(),
        tags: None,
        interval: None,
    }
}

impl PingDefinition {
    /// The ping template with every parameter at its default.
    pub fn template() -> (r: Self)
        ensures
            r@ == ping_defaults(),
    {
        Self {
            definition_type: String::from_str("ping"),
            af: 4,
            description: String::new(),
            resolve_on_probe: true,
            packets: 3,
            size: 48,
            skip_dns_check: false,
            include_probe_id: false,
            target: String::new(),
            tags: None,
            interval: None,
        }
    }

    pub fn af(self, af: u8) -> (r: Self)
        ensures
            r == (Self { af, ..self }),
    {
        Self { af, ..self }
    }

    pub fn description(self, description: &str) -> (r: Self)
        ensures
            r.description@ == description@,
            r == (Self { description: r.description, ..self }),
    {
        Self { description: String::from_str(description), ..self }
    }

    pub fn resolve_on_probe(self, resolve: bool) -> (r: Self)
        ensures
            r == (Self { resolve_on_probe: resolve, ..self }),
    {
        Self { resolve_on_probe: resolve, ..self }
    }

    pub fn packets(self, packets: u32) -> (r: Self)
        ensures
            r == (Self { packets, ..self }),
    {
        Self { packets, ..self }
    }

    pub fn size(self, size: u32) -> (r: Self)
        ensures
            r == (Self { size, ..self }),
    {
        Self { size, ..self }
    }

    pub fn skip_dns_check(self, skip_dns_check: bool) -> (r: Self)
        ensures
            r == (Self { skip_dns_check, ..self }),
    {
        Self { skip_dns_check, ..self }
    }

    pub fn include_probe_id(self, include_probe_id: bool) -> (r: Self)
        ensures
            r == (Self { include_probe_id, ..self }),
    {
        Self { include_probe_id, ..self }
    }

    pub fn tags(self, tags: Option<Vec<String>>) -> (r: Self)
        ensures
            r == (Self { tags, ..self }),
    {
        Self { tags, ..self }
    }

    pub fn interval(self, interval: Option<u32>) -> (r: Self)
        ensures
            r == (Self { interval, ..self }),
    {
        Self { interval, ..self }
    }

    /// A copy of this definition with `target` as its target.
    fn retargeted(&self, target: &str) -> (r: Self)
        ensures
            r@ == (PingDefinitionView { target: target@, ..self@ }),
    {
        Self {
            definition_type: self.definition_type.clone(),
            af: self.af,
            description: self.description.clone(),
            resolve_on_probe: self.resolve_on_probe,
            packets: self.packets,
            size: self.size,
            skip_dns_check: self.skip_dns_check,
            include_probe_id: self.include_probe_id,
            target: String::from_str(target),
            tags: clone_tags(&self.tags),
            interval: self.interval,
        }
    }
}

/// An HTTP measurement: which request to send, and how.
///
/// As a template the target is empty; a definition is a template bound to
/// a target.
#[derive(Debug, Clone)]
pub struct HttpDefinition {
    pub definition_type: String,
    pub af: u8,
    pub description: String,
    pub resolve_on_probe: bool,
    pub path: String,
    pub header_bytes: u32,
    pub method: String,
    pub extended_timing: bool,
    pub port: u16,
    pub version: HttpVersion,
    pub more_extended_timing: bool,
    pub skip_dns_check: bool,
    pub target: String,
    pub tags: Option<Vec<String>>,
    pub interval: Option<u32>,
}

/// The mathematical content of a [`HttpDefinition`].
pub struct HttpDefinitionView {
    pub definition_type: Seq<char>,
    pub af: u8,
    pub description: Seq<char>,
    pub resolve_on_probe: bool,
    pub path: Seq<char>,
    pub header_bytes: u32,
    pub method: Seq<char>,
    pub extended_timing: bool,
    pub port: u16,
    pub version: HttpVersion,
    pub more_extended_timing: bool,
    pub skip_dns_check: bool,
    pub target: Seq<char>,
    pub tags: Option<Seq<Seq<char>>>,
    pub interval: Option<u32>,
}

impl View for HttpDefinition {
    type V = HttpDefinitionView;

    open spec fn view(&self) -> HttpDefinitionView {
        HttpDefinitionView {
            definition_type: self.definition_type@,
            af: self.af,
            description: self.description@,
            resolve_on_probe: self.resolve_on_probe,
            path: self.path@,
            header_bytes: self.header_bytes,
            method: self.method@,
            extended_timing: self.extended_timing,
            port: self.port,
            version: self.version,
            more_extended_timing: self.more_extended_timing,
            skip_dns_check: self.skip_dns_check,
            target: self.target@,
            tags: self.tags.deep_view(),
            interval: self.interval,
        }
    }
}

/// The http template before anything is set.
pub open spec fn http_defaults() -> HttpDefinitionView {
    HttpDefinitionView {
        definition_type: "http"@,
        af: 4,
        description: Seq::empty(),
        resolve_on_probe: true,
        path: Seq::empty(),
        header_bytes: 0,
        method: "GET"@,
        extended_timing: false,
        port: 80,
        version: HttpVersion { major: 1, minor: 1 },
        more_extended_timing: false,
        skip_dns_check: false,
        target: Seq::empty(),
        tags: None,
        interval: None,
    }
}

impl HttpDefinition {
    /// The http template with every parameter at its default.
    pub fn template() -> (r: Self)
        ensures
            r@ == http_defaults(),
    {
        Self {
            definition_type: String::from_str("http"),
            af: 4,
            description: String::new(),
            resolve_on_probe: true,
            path: String::new(),
            header_bytes: 0,
            method: String::from_str("GET"),
            extended_timing: false,
            port: 80,
            version: HttpVersion { major: 1, minor: 1 },
            more_extended_timing: false,
            skip_dns_check: false,
            target: String::new(),
            tags: None,
            interval: None,
        }
    }

    pub fn af(self, af: u8) -> (r: Self)
        ensures
            r == (Self { af, ..self }),
    {
        Self { af, ..self }
    }

    pub fn description(self, description: &str) -> (r: Self)
        ensures
            r.description@ == description@,
            r == (Self { description: r.description, ..self }),
    {
        Self { description: String::from_str(description), ..self }
    }

    pub fn resolve_on_probe(self, resolve: bool) -> (r: Self)
        ensures
            r == (Self { resolve_on_probe: resolve, ..self }),
    {
        Self { resolve_on_probe: resolve, ..self }
    }

    pub fn path(self, path: String) -> (r: Self)
        ensures
            r == (Self { path, ..self }),
    {
        Self { path, ..self }
    }

    pub fn header_bytes(self, bytes: u32) -> (r: Self)
        ensures
            r == (Self { header_bytes: bytes, ..self }),
    {
        Self { header_bytes: bytes, ..self }
    }

    pub fn method(self, method: String) -> (r: Self)
        ensures
            r == (Self { method, ..self }),
    {
        Self { method, ..self }
    }

    pub fn extended_timing(self, extended_timing: bool) -> (r: Self)
        ensures
            r == (Self { extended_timing, ..self }),
    {
        Self { extended_timing, ..self }
    }

    pub fn port(self, port: u16) -> (r: Self)
        ensures
            r == (Self { port, ..self }),
    {
        Self { port, ..self }
    }

    pub fn version(self, version: HttpVersion) -> (r: Self)
        ensures
            r == (Self { version, ..self }),
    {
        Self { version, ..self }
    }

    pub fn more_extended_timing(self, more_extended_timing: bool) -> (r: Self)
        ensures
            r == (Self { more_extended_timing, ..self }),
    {
        Self { more_extended_timing, ..self }
    }

    pub fn skip_dns_check(self, skip_dns_check: bool) -> (r: Self)
        ensures
            r == (Self { skip_dns_check, ..self }),
    {
        Self { skip_dns_check, ..self }
    }

    pub fn target(self, target: String) -> (r: Self)
        ensures
            r == (Self { target, ..self }),
    {
        Self { target, ..self }
    }

    pub fn tags(self, tags: Option<Vec<String>>) -> (r: Self)
        ensures
            r == (Self { tags, ..self }),
    {
        Self { tags, ..self }
    }

    pub fn interval(self, interval: Option<u32>) -> (r: Self)
        ensures
            r == (Self { interval, ..self }),
    {
        Self { interval, ..self }
    }

    /// A copy of this definition with `target` as its target.
    fn retargeted(&self, target: &str) -> (r: Self)
        ensures
            r@ == (HttpDefinitionView { target: target@, ..self@ }),
    {
        Self {
            definition_type: self.definition_type.clone(),
            af: self.af,
            description: self.description.clone(),
            resolve_on_probe: self.resolve_on_probe,
            path: self.path.clone(),
            header_bytes: self.header_bytes,
            method: self.method.clone(),
            extended_timing: self.extended_timing,
            port: self.port,
            version: self.version,
            more_extended_timing: self.more_extended_timing,
            skip_dns_check: self.skip_dns_check,
            target: String::from_str(target),
            tags: clone_tags(&self.tags),
            interval: self.interval,
        }
    }
}

/// A traceroute measurement: which packets to send along the path, and how far.
///
/// As a template the target is empty; a definition is a template bound to
/// a target.
#[derive(Debug, Clone)]
pub struct TracerouteDefinition {
    pub definition_type: String,
    pub af: u8,
    pub resolve_on_probe: bool,
    pub description: String,
    pub response_timeout: u32,
    pub protocol: String,
    pub packets: u32,
    pub size: u32,
    pub first_hop: u32,
    pub max_hops: u32,
    pub paris: u32,
    pub destination_option_size: u32,
    pub hop_by_hop_option_size: u32,
    pub dont_fragment: bool,
    pub skip_dns_check: bool,
    pub port: Option<u16>,
    pub target: String,
    pub tags: Option<Vec<String>>,
    pub interval: Option<u32>,
}

/// The mathematical content of a [`TracerouteDefinition`].
pub struct TracerouteDefinitionView {
    pub definition_type: Seq<char>,
    pub af: u8,
    pub resolve_on_probe: bool,
    pub description: Seq<char>,
    pub response_timeout: u32,
    pub protocol: Seq<char>,
    pub packets: u32,
    pub size: u32,
    pub first_hop: u32,
    pub max_hops: u32,
    pub paris: u32,
    pub destination_option_size: u32,
    pub hop_by_hop_option_size: u32,
    pub dont_fragment: bool,
    pub skip_dns_check: bool,
    pub port: Option<u16>,
    pub target: Seq<char>,
    pub tags: Option<Seq<Seq<char>>>,
    pub interval: Option<u32>,
}

impl View for TracerouteDefinition {
    type V = TracerouteDefinitionView;

    open spec fn view(&self) -> TracerouteDefinitionView {
        TracerouteDefinitionView {
            definition_type: self.definition_type@,
            af: self.af,
            resolve_on_probe: self.resolve_on_probe,
            description: self.description@,
            response_timeout: self.response_timeout,
            protocol: self.protocol@,
            packets: self.packets,
            size: self.size,
            first_hop: self.first_hop,
            max_hops: self.max_hops,
            paris: self.paris,
            destination_option_size: self.destination_option_size,
            hop_by_hop_option_size: self.hop_by_hop_option_size,
            dont_fragment: self.dont_fragment,
            skip_dns_check: self.skip_dns_check,
            port: self.port,
            target: self.target@,
            tags: self.tags.deep_view(),
            interval: self.interval,
        }
    }
}

/// The traceroute template before anything is set.
pub open spec fn traceroute_defaults() -> TracerouteDefinitionView {
    TracerouteDefinitionView {
        definition_type: "traceroute"@,
        af: 4,
        resolve_on_probe: true,
        description: Seq::empty(),
        response_timeout: 4000,
        protocol: "UDP"@,
        packets: 3,
        size: 48,
        first_hop: 1,
        max_hops: 32,
        paris: 16,
        destination_option_size: 0,
        hop_by_hop_option_size: 0,
        dont_fragment: false,
        skip_dns_check: false,
        port: None,
        target: Seq::empty(),
        tags: None,
        interval: None,
    }
}

impl TracerouteDefinition {
    /// The traceroute template with every parameter at its default.
    pub fn template() -> (r: Self)
        ensures
            r@ == traceroute_defaults(),
    {
        Self {
            definition_type: String::from_str("traceroute"),
            af: 4,
            resolve_on_probe: true,
            description: String::new(),
            response_timeout: 4000,
            protocol: String::from_str("UDP"),
            packets: 3,
            size: 48,
            first_hop: 1,
            max_hops: 32,
            paris: 16,
            destination_option_size: 0,
            hop_by_hop_option_size: 0,
            dont_fragment: false,
            skip_dns_check: false,
            port: None,
            target: String::new(),
            tags: None,
            interval: None,
        }
    }

    pub fn af(self, af: u8) -> (r: Self)
        ensures
            r == (Self { af, ..self }),
    {
        Self { af, ..self }
    }

    pub fn description(self, description: &str) -> (r: Self)
        ensures
            r.description@ == description@,
            r == (Self { description: r.description, ..self }),
    {
        Self { description: String::from_str(description), ..self }
    }

    pub fn resolve_on_probe(self, resolve: bool) -> (r: Self)
        ensures
            r == (Self { resolve_on_probe: resolve, ..self }),
    {
        Self { resolve_on_probe: resolve, ..self }
    }

    pub fn response_timeout(self, response_timeout: u32) -> (r: Self)
        ensures
            r == (Self { response_timeout, ..self }),
    {
        Self { response_timeout, ..self }
    }

    pub fn protocol(self, protocol: String) -> (r: Self)
        ensures
            r == (Self { protocol, ..self }),
    {
        Self { protocol, ..self }
    }

    pub fn packets(self, packets: u32) -> (r: Self)
        ensures
            r == (Self { packets, ..self }),
    {
        Self { packets, ..self }
    }

    pub fn size(self, size: u32) -> (r: Self)
        ensures
            r == (Self { size, ..self }),
    {
        Self { size, ..self }
    }

    pub fn paris(self, paris: u32) -> (r: Self)
        ensures
            r == (Self { paris, ..self }),
    {
        Self { paris, ..self }
    }

    pub fn first_hop(self, first_hop: u32) -> (r: Self)
        ensures
            r == (Self { first_hop, ..self }),
    {
        Self { first_hop, ..self }
    }

    pub fn max_hops(self, max_hops: u32) -> (r: Self)
        ensures
            r == (Self { max_hops, ..self }),
    {
        Self { max_hops, ..self }
    }

    pub fn destination_option_size(self, destination_option_size: u32) -> (r: Self)
        ensures
            r == (Self { destination_option_size, ..self }),
    {
        Self { destination_option_size, ..self }
    }

    pub fn hop_by_hop_option_size(self, hop_by_hop_option_size: u32) -> (r: Self)
        ensures
            r == (Self { hop_by_hop_option_size, ..self }),
    {
        Self { hop_by_hop_option_size, ..self }
    }

    pub fn skip_dns_check(self, skip_dns_check: bool) -> (r: Self)
        ensures
            r == (Self { skip_dns_check, ..self }),
    {
        Self { skip_dns_check, ..self }
    }

    pub fn port(self, port: Option<u16>) -> (r: Self)
        ensures
            r == (Self { port, ..self }),
    {
        Self { port, ..self }
    }

    pub fn target(self, target: String) -> (r: Self)
        ensures
            r == (Self { target, ..self }),
    {
        Self { target, ..self }
    }

    pub fn tags(self, tags: Option<Vec<String>>) -> (r: Self)
        ensures
            r == (Self { tags, ..self }),
    {
        Self { tags, ..self }
    }

    pub fn interval(self, interval: Option<u32>) -> (r: Self)
        ensures
            r == (Self { interval, ..self }),
    {
        Self { interval, ..self }
    }

    pub fn dont_fragment(self, dont_fragment: bool) -> (r: Self)
        ensures
            r == (Self { dont_fragment, ..self }),
    {
        Self { dont_fragment, ..self }
    }

    /// A copy of this definition with `target` as its target.
    fn retargeted(&self, target: &str) -> (r: Self)
        ensures
            r@ == (TracerouteDefinitionView { target: target@, ..self@ }),
    {
        Self {
            definition_type: self.definition_type.clone(),
            af: self.af,
            resolve_on_probe: self.resolve_on_probe,
            description: self.description.clone(),
            response_timeout: self.response_timeout,
            protocol: self.protocol.clone(),
            packets: self.packets,
            size: self.size,
            first_hop: self.first_hop,
            max_hops: self.max_hops,
            paris: self.paris,
            destination_option_size: self.destination_option_size,
            hop_by_hop_option_size: self.hop_by_hop_option_size,
            dont_fragment: self.dont_fragment,
            skip_dns_check: self.skip_dns_check,
            port: self.port,
            target: String::from_str(target),
            tags: clone_tags(&self.tags),
            interval: self.interval,
        }
    }
}
} // verus!
