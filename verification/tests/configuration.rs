use atlas_measure::common::api::definitions::DefinitionTemplateBuilder;
use atlas_measure::common::configuration::anchors::Anchors;
use atlas_measure::common::configuration::configuration::ConfigBuilder;
use atlas_measure::common::configuration::http::{HttpConfigBuilder, HttpVersion};
use atlas_measure::common::configuration::ping::PingConfigBuilder;
use atlas_measure::common::configuration::probes::Probes;
use atlas_measure::common::configuration::topology::{TopologicalPair, Topology};
use atlas_measure::common::configuration::traceroute::TracerouteConfigBuilder;
use atlas_measure::common::measurement_ids::MeasurementIds;
use atlas_measure::executor::domain::definition::{
    Definition, DefinitionTemplate, HttpDefinition, PingDefinition, TracerouteDefinition,
};

#[test]
fn ping_parameters_are_collected() {
    let blank = PingConfigBuilder::new().build();
    assert_eq!((blank.packet_count, blank.size), (0, 0));
    let blank = PingConfigBuilder::default().build();
    assert_eq!((blank.packet_count, blank.size), (0, 0));
    let config = PingConfigBuilder::new().packet_count(3).size(48).build();
    assert_eq!((config.packet_count, config.size), (3, 48));
    let config = PingConfigBuilder::new().size(48).packet_count(3).size(56).build();
    assert_eq!((config.packet_count, config.size), (3, 56));
}

#[test]
fn http_parameters_are_collected() {
    let blank = HttpConfigBuilder::new().build().unwrap();
    assert_eq!(blank.path, "");
    assert_eq!(blank.header_bytes, 0);
    assert_eq!(blank.port, 0);
    assert_eq!(blank.version, HttpVersion { major: 0, minor: 0 });
    assert_eq!(blank.method, "");
    let blank = HttpConfigBuilder::default().build().unwrap();
    assert_eq!(blank.path, "");

    let config = HttpConfigBuilder::new()
        .path("/index.html".to_string())
        .header_bytes(256)
        .port(8443)
        .version(HttpVersion { major: 1, minor: 1 })
        .method("PUT".to_string())
        .build()
        .unwrap();
    assert_eq!(config.path, "/index.html");
    assert_eq!(config.header_bytes, 256);
    assert_eq!(config.port, 8443);
    assert_eq!(config.version, HttpVersion { major: 1, minor: 1 });
    assert_eq!(config.method, "PUT");
}

#[test]
fn traceroute_parameters_are_collected() {
    let blank = TracerouteConfigBuilder::new().build();
    assert_eq!(blank.protocol, "");
    assert_eq!(
        (blank.packets, blank.size, blank.first_hop, blank.max_hops, blank.paris),
        (0, 0, 0, 0, 0)
    );
    assert!(!blank.dont_fragment);
    assert_eq!(blank.port, None);
    let blank = TracerouteConfigBuilder::default().build();
    assert_eq!(blank.protocol, "");

    let config = TracerouteConfigBuilder::new()
        .protocol("ICMP".to_string())
        .packets(1)
        .size(2)
        .first_hop(3)
        .max_hops(4)
        .paris(5)
        .dont_fragment(true)
        .port(Some(6))
        .build();
    assert_eq!(config.protocol, "ICMP");
    assert_eq!(
        (config.packets, config.size, config.first_hop, config.max_hops, config.paris),
        (1, 2, 3, 4, 5)
    );
    assert!(config.dont_fragment);
    assert_eq!(config.port, Some(6));
}

#[test]
fn configuration_parts_are_collected() {
    let blank = ConfigBuilder::new().build().unwrap();
    assert_eq!(blank.start_time, None);
    assert_eq!(blank.end_time, None);
    assert_eq!(blank.interval, None);
    assert_eq!(blank.mode, None);
    assert!(blank.ping_configuration.is_none());
    assert!(blank.http_configuration.is_none());
    assert!(blank.traceroute_configuration.is_none());
    assert!(blank.probes.is_none());
    assert!(blank.anchors.is_none());
    assert!(blank.topology.is_none());
    assert!(ConfigBuilder::default().build().unwrap().mode.is_none());

    let config = ConfigBuilder::new()
        .start_time(10)
        .end_time(20)
        .interval(30)
        .mode("All-to-all".to_string())
        .ping_configuration(PingConfigBuilder::new().packet_count(1).build())
        .http_configuration(HttpConfigBuilder::new().port(2).build().unwrap())
        .traceroute_configuration(TracerouteConfigBuilder::new().packets(3).build())
        .probes(Probes::new(vec![4]))
        .anchors(Anchors::new(vec![5]))
        .topology(Topology::new(
            "custom".to_string(),
            vec![TopologicalPair::new("4".to_string(), "5".to_string())],
        ))
        .build()
        .unwrap();
    assert_eq!(config.start_time, Some(10));
    assert_eq!(config.end_time, Some(20));
    assert_eq!(config.interval, Some(30));
    assert_eq!(config.mode.as_deref(), Some("All-to-all"));
    assert_eq!(config.ping_configuration.unwrap().packet_count, 1);
    assert_eq!(config.http_configuration.unwrap().port, 2);
    assert_eq!(config.traceroute_configuration.unwrap().packets, 3);
    assert_eq!(config.probes.unwrap().probes, vec![4]);
    assert_eq!(config.anchors.unwrap().anchors, vec![5]);
    let topology = config.topology.unwrap();
    assert_eq!(topology.mode, "custom");
    assert_eq!(topology.pairs.len(), 1);
    assert_eq!(topology.pairs[0].from, "4");
    assert_eq!(topology.pairs[0].to, "5");
}

#[test]
fn measurement_identifiers_are_kept() {
    let ids = MeasurementIds::new(vec!["1".to_string(), "2".to_string()]);
    assert_eq!(ids.ids, vec!["1", "2"]);
}

#[test]
fn ping_template_defaults_and_setters() {
    let p = PingDefinition::template();
    assert_eq!(p.definition_type, "ping");
    assert_eq!(p.af, 4);
    assert_eq!(p.description, "");
    assert!(p.resolve_on_probe);
    assert_eq!((p.packets, p.size), (3, 48));
    assert!(!p.skip_dns_check && !p.include_probe_id);
    assert_eq!(p.target, "");
    assert_eq!(p.tags, None);
    assert_eq!(p.interval, None);

    let p = PingDefinition::template()
        .af(6)
        .description("d")
        .resolve_on_probe(false)
        .packets(1)
        .size(2)
        .skip_dns_check(true)
        .include_probe_id(true)
        .tags(Some(vec!["t".to_string()]))
        .interval(Some(9));
    assert_eq!(p.definition_type, "ping");
    assert_eq!(p.af, 6);
    assert_eq!(p.description, "d");
    assert!(!p.resolve_on_probe);
    assert_eq!((p.packets, p.size), (1, 2));
    assert!(p.skip_dns_check && p.include_probe_id);
    assert_eq!(p.tags, Some(vec!["t".to_string()]));
    assert_eq!(p.interval, Some(9));
    assert_eq!(p.target, "");
}

#[test]
fn http_template_defaults_and_setters() {
    let h = HttpDefinition::template();
    assert_eq!(h.definition_type, "http");
    assert_eq!(h.af, 4);
    assert_eq!(h.description, "");
    assert!(h.resolve_on_probe);
    assert_eq!(h.path, "");
    assert_eq!(h.header_bytes, 0);
    assert_eq!(h.method, "GET");
    assert!(!h.extended_timing);
    assert_eq!(h.port, 80);
    assert_eq!(h.version, HttpVersion { major: 1, minor: 1 });
    assert!(!h.more_extended_timing && !h.skip_dns_check);
    assert_eq!(h.target, "");
    assert_eq!(h.tags, None);
    assert_eq!(h.interval, None);

    let h = HttpDefinition::template()
        .af(6)
        .description("d")
        .resolve_on_probe(false)
        .path("/p".to_string())
        .header_bytes(1)
        .method("HEAD".to_string())
        .extended_timing(true)
        .port(2)
        .version(HttpVersion { major: 2, minor: 0 })
        .more_extended_timing(true)
        .skip_dns_check(true)
        .target("example.net".to_string())
        .tags(Some(Vec::new()))
        .interval(Some(3));
    assert_eq!(h.af, 6);
    assert_eq!(h.description, "d");
    assert!(!h.resolve_on_probe);
    assert_eq!(h.path, "/p");
    assert_eq!(h.header_bytes, 1);
    assert_eq!(h.method, "HEAD");
    assert!(h.extended_timing && h.more_extended_timing && h.skip_dns_check);
    assert_eq!(h.port, 2);
    assert_eq!(h.version, HttpVersion { major: 2, minor: 0 });
    assert_eq!(h.target, "example.net");
    assert_eq!(h.tags, Some(Vec::new()));
    assert_eq!(h.interval, Some(3));
    assert_eq!(h.definition_type, "http");
}

#[test]
fn traceroute_template_defaults_and_setters() {
    let t = TracerouteDefinition::template();
    assert_eq!(t.definition_type, "traceroute");
    assert_eq!(t.af, 4);
    assert!(t.resolve_on_probe);
    assert_eq!(t.description, "");
    assert_eq!(t.response_timeout, 4000);
    assert_eq!(t.protocol, "UDP");
    assert_eq!((t.packets, t.size, t.first_hop, t.max_hops, t.paris), (3, 48, 1, 32, 16));
    assert_eq!((t.destination_option_size, t.hop_by_hop_option_size), (0, 0));
    assert!(!t.dont_fragment && !t.skip_dns_check);
    assert_eq!(t.port, None);
    assert_eq!(t.target, "");
    assert_eq!(t.tags, None);
    assert_eq!(t.interval, None);

    let t = TracerouteDefinition::template()
        .af(6)
        .description("d")
        .resolve_on_probe(false)
        .response_timeout(1)
        .protocol("TCP".to_string())
        .packets(2)
        .size(3)
        .paris(4)
        .first_hop(5)
        .max_hops(6)
        .destination_option_size(7)
        .hop_by_hop_option_size(8)
        .skip_dns_check(true)
        .port(Some(9))
        .target("192.0.2.1".to_string())
        .tags(Some(vec!["a".to_string(), "b".to_string()]))
        .interval(Some(10))
        .dont_fragment(true);
    assert_eq!(t.af, 6);
    assert_eq!(t.description, "d");
    assert!(!t.resolve_on_probe);
    assert_eq!(t.response_timeout, 1);
    assert_eq!(t.protocol, "TCP");
    assert_eq!((t.packets, t.size, t.paris, t.first_hop, t.max_hops), (2, 3, 4, 5, 6));
    assert_eq!((t.destination_option_size, t.hop_by_hop_option_size), (7, 8));
    assert!(t.skip_dns_check && t.dont_fragment);
    assert_eq!(t.port, Some(9));
    assert_eq!(t.target, "192.0.2.1");
    assert_eq!(t.tags, Some(vec!["a".to_string(), "b".to_string()]));
    assert_eq!(t.interval, Some(10));
    assert_eq!(t.definition_type, "traceroute");
}

#[test]
fn binding_changes_the_target_only() {
    let template = DefinitionTemplate::Ping(
        PingDefinition::template()
            .description("d")
            .packets(7)
            .tags(Some(vec!["x".to_string()]))
            .interval(Some(60)),
    );
    match template.with_target("192.0.2.9") {
        Definition::Ping(p) => {
            assert_eq!(p.target, "192.0.2.9");
            assert_eq!(p.description, "d");
            assert_eq!(p.packets, 7);
            assert_eq!(p.size, 48);
            assert_eq!(p.tags, Some(vec!["x".to_string()]));
            assert_eq!(p.interval, Some(60));
            assert_eq!(p.definition_type, "ping");
        }
        _ => panic!("expected a ping definition"),
    }
    let template = DefinitionTemplate::Http(HttpDefinition::template().target("old".to_string()));
    match template.with_target("new.example.net") {
        Definition::Http(h) => {
            assert_eq!(h.target, "new.example.net");
            assert_eq!(h.method, "GET");
        }
        _ => panic!("expected an HTTP definition"),
    }
    let template = DefinitionTemplate::Traceroute(TracerouteDefinition::template().port(Some(33434)));
    match template.with_target("") {
        Definition::Traceroute(t) => {
            assert_eq!(t.target, "");
            assert_eq!(t.port, Some(33434));
            assert_eq!(t.protocol, "UDP");
        }
        _ => panic!("expected a traceroute definition"),
    }
}

#[test]
fn flat_template_needs_a_type() {
    let outcome = DefinitionTemplateBuilder::new().packets(5).build();
    assert_eq!(outcome.err(), Some("Missing field: definition type"));

    let template = DefinitionTemplateBuilder::new().def_type("ping".to_string()).build().unwrap();
    assert_eq!(template.def_type, "ping");
    assert_eq!(template.af, 4);
    assert!(!template.resolve_on_probe);
    assert_eq!((template.packets, template.size), (3, 48));
    assert!(!template.skip_dns_check && !template.include_probe_id);
    assert!(template.tags.is_empty());
    assert_eq!(template.interval, None);
}

#[test]
fn flat_template_becomes_a_definition() {
    let template = DefinitionTemplateBuilder::new()
        .def_type("ping".to_string())
        .af(6)
        .resolve_on_probe(true)
        .packets(1)
        .size(2)
        .skip_dns_check(true)
        .include_probe_id(true)
        .tags(vec!["a".to_string()])
        .interval(Some(3))
        .build()
        .unwrap();
    let definition = template.to_definition("192.0.2.1".to_string());
    assert_eq!(definition.def_type, "ping");
    assert_eq!(definition.af, 6);
    assert!(definition.resolve_on_probe);
    assert_eq!((definition.packets, definition.size), (1, 2));
    assert!(definition.skip_dns_check && definition.include_probe_id);
    assert_eq!(definition.target, "192.0.2.1");
    assert_eq!(definition.tags, vec!["a".to_string()]);
    assert_eq!(definition.interval, Some(3));
}
