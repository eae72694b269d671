use atlas_measure::configurator::prompt::general::{
    read_utc_datetime, validate_interval as validate_interval_number, MeasurementType, TimeEntry,
};
use atlas_measure::configurator::prompt::http::validate_port;
use atlas_measure::configurator::prompt::probe::enter_id;
use atlas_measure::configurator::prompt::topology::TopologyMode;
use atlas_measure::configurator::prompt::traceroute::{asks_for_port, traceroute_config};
use atlas_measure::configurator::prompt::{
    enter_probe_id, validate_interval, validate_probe_id, AnswerError, EntryStep,
};
use atlas_measure::configurator::{apply_appropriete_ids_for, IdentifierSource};

#[test]
fn offered_measurement_types() {
    assert_eq!(MeasurementType::all(), &[MeasurementType::Ping, MeasurementType::Http]);
    assert_eq!(MeasurementType::Ping.label(), "Ping");
    assert_eq!(MeasurementType::Http.label(), "HTTP");
    assert_eq!(MeasurementType::Traceroute.label(), "Traceroute");
}

#[test]
fn offered_topologies() {
    assert_eq!(TopologyMode::all(), &[TopologyMode::AllToAll, TopologyMode::CustomPairs]);
    assert_eq!(TopologyMode::AllToAll.as_str(), "All-to-all");
    assert_eq!(TopologyMode::CustomPairs.as_str(), "Custom pairs");
    assert_eq!(TopologyMode::AllToAll.label(), "all-to-all");
    assert_eq!(TopologyMode::CustomPairs.label(), "custom pairs");
}

#[test]
fn identifiers_are_digits() {
    for accepted in ["", "   ", "1", "0042", " 6001 ", "\t7\n", "99999999999999999999"] {
        assert_eq!(validate_probe_id(&accepted.to_string()), Ok(()), "{:?}", accepted);
    }
    for refused in ["a", "12a", "1 2", "-1", "+1", "1.5", "\u{661}"] {
        assert_eq!(
            validate_probe_id(&refused.to_string()),
            Err(AnswerError::InvalidProbeId),
            "{:?}",
            refused
        );
    }
    assert_eq!(
        AnswerError::InvalidProbeId.message(),
        "Please enter a valid probe/anchor id."
    );
}

#[test]
fn interval_texts_are_numbers() {
    for accepted in ["0", "60", "+60", "4294967295"] {
        assert_eq!(validate_interval(&accepted.to_string()), Ok(()), "{:?}", accepted);
    }
    for refused in ["", " 60", "60 ", "-60", "4294967296", "sixty", "6.0"] {
        assert_eq!(
            validate_interval(&refused.to_string()),
            Err(AnswerError::InvalidInterval),
            "{:?}",
            refused
        );
    }
    assert_eq!(
        AnswerError::InvalidInterval.message(),
        "Please enter a valid positive integer"
    );
}

#[test]
fn intervals_are_positive() {
    assert_eq!(validate_interval_number(&1), Ok(()));
    assert_eq!(validate_interval_number(&60), Ok(()));
    assert_eq!(validate_interval_number(&u32::MAX), Ok(()));
    assert_eq!(validate_interval_number(&0), Err("Please enter a valid positive integer"));
}

#[test]
fn ports_are_positive() {
    assert_eq!(validate_port(&1), Ok(()));
    assert_eq!(validate_port(&80), Ok(()));
    assert_eq!(validate_port(&65535), Ok(()));
    assert_eq!(validate_port(&0), Err("Port must be between 1 and 65535"));
}

#[test]
fn entering_identifiers_step_by_step() {
    let mut ids: Vec<u32> = Vec::new();
    assert_eq!(enter_id(&mut ids, "6001"), EntryStep::Added);
    assert_eq!(enter_id(&mut ids, " 6002 "), EntryStep::Added);
    assert_eq!(ids, vec![6001, 6002]);
    assert_eq!(enter_id(&mut ids, "6001"), EntryStep::Duplicate);
    assert_eq!(enter_id(&mut ids, "+6002"), EntryStep::Duplicate);
    assert_eq!(enter_id(&mut ids, "06001"), EntryStep::Duplicate);
    assert_eq!(ids, vec![6001, 6002]);
    assert_eq!(enter_id(&mut ids, "six"), EntryStep::Invalid);
    assert_eq!(enter_id(&mut ids, "-1"), EntryStep::Invalid);
    assert_eq!(enter_id(&mut ids, "4294967296"), EntryStep::Invalid);
    assert_eq!(enter_id(&mut ids, "1 2"), EntryStep::Invalid);
    assert_eq!(ids, vec![6001, 6002]);
    assert_eq!(enter_id(&mut ids, "0"), EntryStep::Added);
    assert_eq!(enter_id(&mut ids, "4294967295"), EntryStep::Added);
    assert_eq!(ids, vec![6001, 6002, 0, u32::MAX]);
    assert_eq!(enter_id(&mut ids, ""), EntryStep::Finished);
    assert_eq!(enter_id(&mut ids, "  \t"), EntryStep::Finished);
    assert_eq!(ids, vec![6001, 6002, 0, u32::MAX]);
}

#[test]
fn entering_identifiers_as_text() {
    let mut probes: Vec<String> = Vec::new();
    assert_eq!(enter_probe_id(&mut probes, "6001".to_string()), EntryStep::Added);
    assert_eq!(enter_probe_id(&mut probes, " 6001".to_string()), EntryStep::Added);
    assert_eq!(enter_probe_id(&mut probes, "6001".to_string()), EntryStep::Duplicate);
    assert_eq!(enter_probe_id(&mut probes, "7".to_string()), EntryStep::Added);
    assert_eq!(probes, vec!["6001".to_string(), " 6001".to_string(), "7".to_string()]);
    assert_eq!(enter_probe_id(&mut probes, " ".to_string()), EntryStep::Finished);
    assert_eq!(enter_probe_id(&mut probes, String::new()), EntryStep::Finished);
    assert_eq!(probes.len(), 3);
}

#[test]
fn times_are_read_as_utc_minutes() {
    match read_utc_datetime("1970-01-01 00:00") {
        TimeEntry::At(seconds) => assert_eq!(seconds, 0),
        other => panic!("unexpected entry {:?}", other),
    }
    match read_utc_datetime("  2024-02-29 12:30\n") {
        TimeEntry::At(seconds) => assert_eq!(seconds, 1_709_209_800),
        other => panic!("unexpected entry {:?}", other),
    }
    match read_utc_datetime("1969-12-31 23:59") {
        TimeEntry::At(seconds) => assert_eq!(seconds, -60),
        other => panic!("unexpected entry {:?}", other),
    }
    assert_eq!(read_utc_datetime("2024-02-29 12:30").seconds(), Some(1_709_209_800));
}

#[test]
fn blank_times_enter_nothing() {
    assert!(matches!(read_utc_datetime(""), TimeEntry::Blank));
    assert!(matches!(read_utc_datetime("   \t"), TimeEntry::Blank));
    assert_eq!(read_utc_datetime(" ").seconds(), None);
}

#[test]
fn other_texts_are_no_times() {
    for text in ["tomorrow", "2024-02-30 12:30", "2024-02-29", "2024-02-29 25:00", "2024-02-29 12:30:15"] {
        let entry = read_utc_datetime(text);
        assert!(matches!(entry, TimeEntry::Invalid(_)), "{:?}", text);
        assert_eq!(entry.seconds(), None);
    }
    match read_utc_datetime("2024-02-29 12:30 and more") {
        TimeEntry::Invalid(complaint) => assert_eq!(complaint.to_string(), "trailing input"),
        other => panic!("unexpected entry {:?}", other),
    }
}

#[test]
fn parsed_answers_become_entries() {
    assert!(matches!(TimeEntry::from_parsed(Ok(5)), TimeEntry::At(5)));
    let complaint = chrono::NaiveDateTime::parse_from_str("x", "%Y").unwrap_err();
    match TimeEntry::from_parsed(Err(complaint)) {
        TimeEntry::Invalid(kept) => assert_eq!(kept, complaint),
        other => panic!("unexpected entry {:?}", other),
    }
}

#[test]
fn only_tcp_takes_a_port() {
    for protocol in ["TCP", "tcp", "Tcp", "tCP"] {
        assert!(asks_for_port(protocol));
    }
    for protocol in ["UDP", "ICMP", "", "TCP ", "TCPS", "T"] {
        assert!(!asks_for_port(protocol));
    }
    let tcp = traceroute_config("tcp".to_string(), 3, 48, 1, 32, 16, false, Some(80));
    assert_eq!(tcp.port, Some(80));
    assert_eq!(tcp.protocol, "tcp");
    assert_eq!((tcp.packets, tcp.size, tcp.first_hop, tcp.max_hops, tcp.paris), (3, 48, 1, 32, 16));
    assert!(!tcp.dont_fragment);
    let udp = traceroute_config("UDP".to_string(), 1, 2, 3, 4, 5, true, Some(80));
    assert_eq!(udp.port, None);
    assert_eq!((udp.packets, udp.size, udp.first_hop, udp.max_hops, udp.paris), (1, 2, 3, 4, 5));
    assert!(udp.dont_fragment);
    let unasked = traceroute_config("TCP".to_string(), 3, 48, 1, 32, 16, false, None);
    assert_eq!(unasked.port, None);
}

#[test]
fn http_measurements_run_between_anchors() {
    let ping = [MeasurementType::Ping];
    let both = [MeasurementType::Ping, MeasurementType::Http];
    let http_first = [MeasurementType::Http, MeasurementType::Traceroute];
    assert_eq!(
        apply_appropriete_ids_for(TopologyMode::AllToAll, &ping),
        Some(IdentifierSource::Probes)
    );
    assert_eq!(
        apply_appropriete_ids_for(TopologyMode::AllToAll, &[]),
        Some(IdentifierSource::Probes)
    );
    assert_eq!(
        apply_appropriete_ids_for(TopologyMode::AllToAll, &both),
        Some(IdentifierSource::Anchors)
    );
    assert_eq!(
        apply_appropriete_ids_for(TopologyMode::AllToAll, &http_first),
        Some(IdentifierSource::Anchors)
    );
    assert_eq!(apply_appropriete_ids_for(TopologyMode::CustomPairs, &both), None);
    assert_eq!(apply_appropriete_ids_for(TopologyMode::CustomPairs, &ping), None);
}
