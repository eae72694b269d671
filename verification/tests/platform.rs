use atlas_measure::common::configuration::anchors::Anchors;
use atlas_measure::common::configuration::configuration::ConfigBuilder;
use atlas_measure::common::configuration::probes::Probes;
use atlas_measure::common::measurement_ids::MeasurementIds;
use atlas_measure::executor::api::create_measurement::{
    authorization, collect_measurement_ids, measurements_url, successful_body, Measurement,
};
use atlas_measure::executor::api::fetch_probe_information::{
    fetch_plan, probe_url, FetchPlanError, IdField, ProbeInformation, ProbeRecord,
    ProbeRecordError,
};
use atlas_measure::executor::io::{entered_api_key, validate_api_key, ApiKeyError};
use atlas_measure::executor::probe::{Probe, ProbeError, ProbeStatus};

fn record(probe: IdField, id: IdField) -> ProbeRecord {
    ProbeRecord {
        probe,
        id,
        ip_v4: Some("192.0.2.1".to_string()),
        is_anchor: None,
        kind: None,
        fqdn: None,
    }
}

#[test]
fn identifier_comes_from_probe_before_id() {
    let probe = ProbeInformation::from_record(record(IdField::Number(7), IdField::Number(8))).unwrap();
    assert_eq!(probe.probe_id, 7);
    let probe = ProbeInformation::from_record(record(IdField::Absent, IdField::Number(8))).unwrap();
    assert_eq!(probe.probe_id, 8);
    let probe = ProbeInformation::from_record(record(IdField::Number(7), IdField::Other)).unwrap();
    assert_eq!(probe.probe_id, 7);
    let probe = ProbeInformation::from_record(record(IdField::Number(7), IdField::Absent)).unwrap();
    assert_eq!(probe.probe_id, 7);
}

#[test]
fn record_without_identifier_is_refused() {
    for (probe, id) in [
        (IdField::Absent, IdField::Absent),
        (IdField::Absent, IdField::Other),
        (IdField::Other, IdField::Number(8)),
        (IdField::Other, IdField::Absent),
        (IdField::Other, IdField::Other),
    ] {
        assert_eq!(
            ProbeInformation::from_record(record(probe, id)).unwrap_err(),
            ProbeRecordError::MissingId
        );
    }
    assert_eq!(ProbeRecordError::MissingId.missing_field(), "id or probe");
}

#[test]
fn identifier_is_cut_to_32_bits() {
    let probe = ProbeInformation::from_record(record(IdField::Number(4_294_967_295), IdField::Absent))
        .unwrap();
    assert_eq!(probe.probe_id, u32::MAX);
    let probe = ProbeInformation::from_record(record(IdField::Number(4_294_967_296 + 5), IdField::Absent))
        .unwrap();
    assert_eq!(probe.probe_id, 5);
    let probe = ProbeInformation::from_record(record(IdField::Number(u64::MAX), IdField::Absent)).unwrap();
    assert_eq!(probe.probe_id, u64::MAX as u32);
}

#[test]
fn anchor_flag_comes_from_flag_before_type() {
    let with = |is_anchor: Option<bool>, kind: Option<&str>| {
        let mut r = record(IdField::Number(1), IdField::Absent);
        r.is_anchor = is_anchor;
        r.kind = kind.map(|k| k.to_string());
        ProbeInformation::from_record(r).unwrap().is_anchor
    };
    assert!(with(Some(true), None));
    assert!(with(Some(true), Some("probe")));
    assert!(!with(Some(false), Some("anchor")));
    assert!(with(None, Some("anchor")));
    assert!(with(None, Some("Anchor")));
    assert!(with(None, Some("ANCHOR")));
    assert!(!with(None, Some("probe")));
    assert!(!with(None, Some("anchors")));
    assert!(!with(None, Some("")));
    assert!(!with(None, None));
}

#[test]
fn address_and_name_are_taken_as_given() {
    let mut r = record(IdField::Number(1), IdField::Absent);
    r.fqdn = Some("a.example.net".to_string());
    let probe = ProbeInformation::from_record(r).unwrap();
    assert_eq!(probe.address_v4, "192.0.2.1");
    assert_eq!(probe.fqdn.as_deref(), Some("a.example.net"));

    let mut r = record(IdField::Number(1), IdField::Absent);
    r.ip_v4 = None;
    let probe = ProbeInformation::from_record(r).unwrap();
    assert_eq!(probe.address_v4, "");
    assert_eq!(probe.fqdn, None);
}

#[test]
fn vantage_points_are_anchors_or_probes() {
    let anchors = ConfigBuilder::new().anchors(Anchors::new(vec![1, 2])).build().unwrap();
    let plan = fetch_plan(&anchors).unwrap();
    assert_eq!(plan.endpoint, "anchors");
    assert_eq!(plan.ids, &vec![1, 2]);

    let probes = ConfigBuilder::new().probes(Probes::new(vec![3])).build().unwrap();
    let plan = fetch_plan(&probes).unwrap();
    assert_eq!(plan.endpoint, "probes");
    assert_eq!(plan.ids, &vec![3]);

    let both = ConfigBuilder::new()
        .anchors(Anchors::new(vec![1]))
        .probes(Probes::new(vec![3]))
        .build()
        .unwrap();
    assert_eq!(fetch_plan(&both).unwrap_err(), FetchPlanError::BothAnchorsAndProbes);

    let neither = ConfigBuilder::new().build().unwrap();
    assert_eq!(fetch_plan(&neither).unwrap_err(), FetchPlanError::NeitherAnchorsNorProbes);

    assert_eq!(
        FetchPlanError::BothAnchorsAndProbes.message(),
        "Configuration contains both anchors and probes."
    );
    assert_eq!(
        FetchPlanError::NeitherAnchorsNorProbes.message(),
        "No anchors or probes are defined in the provided configuration."
    );
}

#[test]
fn addresses_of_the_platform() {
    assert_eq!(probe_url("probes", 6001), "https://atlas.ripe.net/api/v2/probes/6001");
    assert_eq!(probe_url("anchors", 0), "https://atlas.ripe.net/api/v2/anchors/0");
    assert_eq!(
        probe_url("probes", u32::MAX),
        "https://atlas.ripe.net/api/v2/probes/4294967295"
    );
    assert_eq!(measurements_url(), "https://atlas.ripe.net/api/v2/measurements");
    assert_eq!(authorization("abc-123"), "Key abc-123");
    assert_eq!(authorization(""), "Key ");
}

#[test]
fn answers_are_judged_by_status() {
    for status in [200u16, 201, 204, 299] {
        assert_eq!(successful_body(status, "body".to_string()).unwrap(), "body");
    }
    for status in [0u16, 100, 199, 300, 301, 400, 404, 500, 65535] {
        let failure = successful_body(status, "why".to_string()).unwrap_err();
        assert_eq!(failure.status, status);
        assert_eq!(failure.body, "why");
    }
}

#[test]
fn first_identifier_of_each_answer_is_kept() {
    let answers = vec![
        Measurement { measurements: vec![101, 102] },
        Measurement { measurements: Vec::new() },
        Measurement { measurements: vec![0] },
        Measurement { measurements: vec![u64::MAX, 1] },
    ];
    let MeasurementIds { ids } = collect_measurement_ids(&answers);
    assert_eq!(ids, vec!["101", "0", "18446744073709551615"]);
    assert!(collect_measurement_ids(&Vec::new()).ids.is_empty());
}

#[test]
fn api_keys_are_checked() {
    let good = "0123abcd-45ef-67AB-89cd-ef0123456789";
    assert_eq!(good.len(), 36);
    assert_eq!(validate_api_key(&good.to_string()), Ok(()));
    assert_eq!(validate_api_key(&format!("  {}\n", good)), Ok(()));
    assert_eq!(validate_api_key(&"-".repeat(36)), Ok(()));

    assert_eq!(validate_api_key(&String::new()), Err(ApiKeyError::Empty));
    assert_eq!(validate_api_key(&"  \t ".to_string()), Err(ApiKeyError::Empty));

    assert_eq!(validate_api_key(&"abc".to_string()), Err(ApiKeyError::InvalidLength));
    assert_eq!(validate_api_key(&"a".repeat(35)), Err(ApiKeyError::InvalidLength));
    assert_eq!(validate_api_key(&"a".repeat(37)), Err(ApiKeyError::InvalidLength));
    assert_eq!(validate_api_key(&"\u{e9}".repeat(36)), Err(ApiKeyError::InvalidLength));
    assert_eq!(validate_api_key(&"!".to_string()), Err(ApiKeyError::InvalidLength));

    assert_eq!(validate_api_key(&"\u{e9}".repeat(18)), Err(ApiKeyError::InvalidCharacter));
    assert_eq!(
        validate_api_key(&format!("{}_", "a".repeat(35))),
        Err(ApiKeyError::InvalidCharacter)
    );
    assert_eq!(
        validate_api_key(&format!("{} {}", "a".repeat(17), "b".repeat(18))),
        Err(ApiKeyError::InvalidCharacter)
    );
}

#[test]
fn api_key_failures_have_their_messages() {
    assert_eq!(ApiKeyError::Empty.message(), "Provided API key is empty");
    assert_eq!(ApiKeyError::InvalidLength.message(), "Length of provided API key is invalid");
    assert_eq!(
        ApiKeyError::InvalidCharacter.message(),
        "Proper API keys may only contain alphanumeric characters and '-'"
    );
}

#[test]
fn api_key_is_used_without_outer_white_space() {
    assert_eq!(entered_api_key(&"  key-1 \n".to_string()), "key-1");
    assert_eq!(entered_api_key(&"key".to_string()), "key");
    assert_eq!(entered_api_key(&"  ".to_string()), "");
}

fn described(status: u32) -> Probe {
    Probe {
        probe_id: 0,
        address_v4: "192.0.2.1".to_string(),
        country_code: "NL".to_string(),
        is_anchor: false,
        status: ProbeStatus { id: status },
    }
}

#[test]
fn only_connected_probes_are_used() {
    let probe = described(1).identified(6001).unwrap();
    assert_eq!(probe.probe_id, 6001);
    assert_eq!(probe.address_v4, "192.0.2.1");
    assert_eq!(probe.country_code, "NL");
    assert!(!probe.is_anchor);
    assert_eq!(probe.status.id, 1);
    for status in [0, 2, 3, u32::MAX] {
        assert_eq!(described(status).identified(6001).unwrap_err(), ProbeError::Offline(6001));
    }
}
