use atlas_measure::common::configuration::configuration::{ConfigBuilder, Configuration};
use atlas_measure::common::configuration::http::{HttpConfigBuilder, HttpVersion};
use atlas_measure::common::configuration::topology::Topology;
use atlas_measure::executor::api::fetch_probe_information::ProbeInformation;
use atlas_measure::executor::transform::connections::{
    generate_all_to_all_connections, generate_connections,
};
use atlas_measure::executor::transform::TransformError;

fn vantage_point(probe_id: u32, address: &str, is_anchor: bool) -> ProbeInformation {
    ProbeInformation {
        probe_id,
        address_v4: address.to_string(),
        is_anchor,
        fqdn: Some(format!("vp{}.example.net", probe_id)),
    }
}

fn probes(n: u32) -> Vec<ProbeInformation> {
    (0..n)
        .map(|i| vantage_point(1000 + i, &format!("10.0.0.{}", i), false))
        .collect()
}

fn plain() -> Configuration {
    ConfigBuilder::new().build().unwrap()
}

fn with_mode(mode: &str) -> Configuration {
    ConfigBuilder::new()
        .topology(Topology::new(mode.to_string(), Vec::new()))
        .build()
        .unwrap()
}

fn with_http() -> Configuration {
    let http = HttpConfigBuilder::new()
        .path("/".to_string())
        .port(80)
        .method("GET".to_string())
        .version(HttpVersion { major: 1, minor: 1 })
        .build()
        .unwrap();
    ConfigBuilder::new().http_configuration(http).build().unwrap()
}

#[test]
fn three_vantage_points_give_two_pairings() {
    let a = vantage_point(1, "10.0.0.1", false);
    let b = vantage_point(2, "10.0.0.2", false);
    let c = vantage_point(3, "10.0.0.3", false);
    let pairings = generate_connections(vec![a, b, c], &plain()).unwrap();
    assert_eq!(pairings.len(), 2);
    assert_eq!(pairings[0].target_ipv4, "10.0.0.1");
    assert_eq!(pairings[0].target_fqdn.as_deref(), Some("vp1.example.net"));
    assert_eq!(pairings[0].sources, vec!["2".to_string(), "3".to_string()]);
    assert_eq!(pairings[1].target_ipv4, "10.0.0.2");
    assert_eq!(pairings[1].target_fqdn.as_deref(), Some("vp2.example.net"));
    assert_eq!(pairings[1].sources, vec!["3".to_string()]);
}

#[test]
fn last_vantage_point_is_never_a_target() {
    for n in 2..8u32 {
        let pairings = generate_connections(probes(n), &plain()).unwrap();
        let last = format!("10.0.0.{}", n - 1);
        assert!(pairings.iter().all(|p| p.target_ipv4 != last));
        assert!(pairings.iter().all(|p| p.sources.last() == Some(&(1000 + n - 1).to_string())));
    }
}

#[test]
fn all_to_all_has_one_pairing_less_than_vantage_points() {
    for n in 2..12u32 {
        let pairings = generate_connections(probes(n), &plain()).unwrap();
        assert_eq!(pairings.len() as u32, n - 1);
        for (i, pairing) in pairings.iter().enumerate() {
            assert_eq!(pairing.sources.len() as u32, n - 1 - i as u32);
        }
    }
}

#[test]
fn every_pair_meets_exactly_once() {
    let n = 9u32;
    let pairings = generate_connections(probes(n), &plain()).unwrap();
    let mut met: Vec<(String, String)> = Vec::new();
    for (i, pairing) in pairings.iter().enumerate() {
        let target = (1000 + i as u32).to_string();
        assert_eq!(pairing.target_ipv4, format!("10.0.0.{}", i));
        for source in &pairing.sources {
            let pair = if *source < target {
                (source.clone(), target.clone())
            } else {
                (target.clone(), source.clone())
            };
            assert!(!met.contains(&pair));
            met.push(pair);
        }
    }
    assert_eq!(met.len() as u32, n * (n - 1) / 2);
    for a in 0..n {
        for b in (a + 1)..n {
            assert!(met.contains(&((1000 + a).to_string(), (1000 + b).to_string())));
        }
    }
}

#[test]
fn no_pairing_lists_its_own_target() {
    let pairings = generate_connections(probes(6), &plain()).unwrap();
    for (i, pairing) in pairings.iter().enumerate() {
        assert!(!pairing.sources.contains(&(1000 + i as u32).to_string()));
    }
}

#[test]
fn no_vantage_point_is_not_enough() {
    let outcome = generate_connections(Vec::new(), &plain());
    assert_eq!(outcome.unwrap_err(), TransformError::InsufficientVantagePoints);
}

#[test]
fn one_vantage_point_is_not_enough() {
    let outcome = generate_connections(probes(1), &plain());
    assert_eq!(outcome.unwrap_err(), TransformError::InsufficientVantagePoints);
}

#[test]
fn too_few_vantage_points_are_refused_before_anything_else() {
    let outcome = generate_connections(probes(1), &with_mode("nonsense"));
    assert_eq!(outcome.unwrap_err(), TransformError::InsufficientVantagePoints);
    let outcome = generate_connections(probes(1), &with_http());
    assert_eq!(outcome.unwrap_err(), TransformError::InsufficientVantagePoints);
}

#[test]
fn http_needs_anchors_only() {
    let mixed = vec![
        vantage_point(1, "10.0.0.1", true),
        vantage_point(2, "10.0.0.2", false),
    ];
    let outcome = generate_connections(mixed, &with_http());
    assert_eq!(outcome.unwrap_err(), TransformError::NonAnchorProbeForHttp);

    let anchors = vec![
        vantage_point(1, "10.0.0.1", true),
        vantage_point(2, "10.0.0.2", true),
    ];
    let pairings = generate_connections(anchors, &with_http()).unwrap();
    assert_eq!(pairings.len(), 1);
}

#[test]
fn probes_that_are_no_anchors_serve_without_http() {
    let pairings = generate_connections(probes(2), &plain()).unwrap();
    assert_eq!(pairings.len(), 1);
    assert_eq!(pairings[0].sources, vec!["1001".to_string()]);
}

#[test]
fn named_all_to_all_is_the_default() {
    let named = generate_connections(probes(4), &with_mode("all-to-all")).unwrap();
    let default = generate_connections(probes(4), &plain()).unwrap();
    assert_eq!(named.len(), default.len());
    for (a, b) in named.iter().zip(default.iter()) {
        assert_eq!(a.target_ipv4, b.target_ipv4);
        assert_eq!(a.target_fqdn, b.target_fqdn);
        assert_eq!(a.sources, b.sources);
    }
}

#[test]
fn custom_pairs_are_not_implemented() {
    let outcome = generate_connections(probes(3), &with_mode("custom"));
    assert_eq!(outcome.unwrap_err(), TransformError::NotImplemented);
}

#[test]
fn unknown_modes_are_invalid() {
    for mode in ["", "All-to-all", "all to all", "custom pairs", "ring"] {
        let outcome = generate_connections(probes(3), &with_mode(mode));
        assert_eq!(outcome.unwrap_err(), TransformError::InvalidTopologyMode);
    }
}

#[test]
fn expansion_of_no_vantage_points_is_empty() {
    assert!(generate_all_to_all_connections(&Vec::new()).is_empty());
    assert!(generate_all_to_all_connections(&probes(1)).is_empty());
}

#[test]
fn failures_have_their_messages() {
    assert_eq!(
        TransformError::InsufficientVantagePoints.message(),
        "Not enough probes to create a connection."
    );
    assert_eq!(
        TransformError::NoMeasurementTypesConfigured.message(),
        "No definition templates provided in configuration."
    );
    assert_eq!(
        TransformError::NonAnchorProbeForHttp.message(),
        "One or multiple probes are not an Anchor (required for HTTP measurements)"
    );
    assert_eq!(TransformError::NotImplemented.message(), "Not implemented yet");
    assert_eq!(
        TransformError::InvalidTopologyMode.message(),
        "Invalid topology mode. Cannot build connections."
    );
    assert_eq!(
        TransformError::MissingTargetFqdn.message(),
        "HTTP templates imply the existance of a fqdn to be set"
    );
}
