//! Assembly: pairings, templates and the scheduling window become one
//! measurement specification per pairing.

use crate::common::configuration::configuration::Configuration;
use crate::executor::api::fetch_probe_information::{ProbeInformation, ProbeInformationView};
use crate::executor::domain::config::{Config, ConfigView};
use crate::executor::domain::definition::{bound_to, Definition, DefinitionTemplate, DefinitionView};
use crate::executor::domain::probes::{selection_of, Probes};
use crate::executor::transform::connections::{
    expansion, generate_connections, pairing_views, probe_views, topology_mode, TargetWithSources,
    TargetWithSourcesView,
};
use crate::executor::transform::templates::{
    any_type_configured, create_definition_templates, is_identifier_text, requested_templates,
    template_views, templates_described,
};
use crate::executor::transform::TransformError;
use vstd::prelude::*;

verus! {

/// The definition that a template becomes for the target of a pairing.
///
/// A ping and a traceroute go to the target's address. An HTTP measurement
/// goes to the target's domain name, and cannot be bound where the target
/// has none.
pub open spec fn bind_target(template: DefinitionView, pairing: TargetWithSourcesView) -> Option<
    DefinitionView,
> {
    match template {
        DefinitionView::Http(_) => match pairing.target_fqdn {
            Some(fqdn) => Some(bound_to(template, fqdn)),
            None => None,
        },
        _ => Some(bound_to(template, pairing.target_ipv4)),
    }
}

/// Some template cannot be bound to the target of some pairing.
pub open spec fn assembly_fails(
    pairings: Seq<TargetWithSourcesView>,
    templates: Seq<DefinitionView>,
) -> bool {
    exists|i: int, j: int|
        0 <= i < pairings.len() && 0 <= j < templates.len() && #[trigger] bind_target(
            templates[j],
            pairings[i],
        ) is None
}

/// The definitions of a pairing: each template bound to its target, in the
/// order of the templates.
pub open spec fn definitions_for(
    pairing: TargetWithSourcesView,
    templates: Seq<DefinitionView>,
) -> Seq<DefinitionView> {
    Seq::new(templates.len(), |j: int| bind_target(templates[j], pairing)->0)
}

/// The measurement specification of a pairing: the window, the one-off flag
/// that says whether the window has no end, the templates bound to the
/// target, and one selection that asks for exactly the pairing's sources.
pub open spec fn specification_for(
    start_time: Option<u64>,
    stop_time: Option<u64>,
    pairing: TargetWithSourcesView,
    templates: Seq<DefinitionView>,
) -> ConfigView {
    ConfigView {
        start_time,
        stop_time,
        is_oneoff: stop_time is None,
        definitions: definitions_for(pairing, templates),
        probes: seq![selection_of(pairing.sources)],
    }
}

/// One measurement specification per pairing, in the order of the pairings.
pub open spec fn assembled(
    start_time: Option<u64>,
    stop_time: Option<u64>,
    pairings: Seq<TargetWithSourcesView>,
    templates: Seq<DefinitionView>,
) -> Seq<ConfigView> {
    Seq::new(
        pairings.len(),
        |i: int| specification_for(start_time, stop_time, pairings[i], templates),
    )
}

/// The views of the measurement specifications.
pub open spec fn config_views(configs: Seq<Config>) -> Seq<ConfigView> {
    configs.map_values(|c: Config| c@)
}

/// Binds every template to the target of the pairing, or finds one that
/// cannot be bound.
fn bind_all(connection: &TargetWithSources, definition_templates: &Vec<DefinitionTemplate>) -> (bound:
    Option<Vec<Definition>>)
    ensures
        match bound {
            Some(definitions) => {
                &&& definitions@.map_values(|d: Definition| d@) == definitions_for(
                    connection@,
                    template_views(definition_templates@),
                )
                &&& forall|j: int|
                    0 <= j < definition_templates.len() ==> bind_target(
                        #[trigger] template_views(definition_templates@)[j],
                        connection@,
                    ) is Some
            },
            None => exists|j: int|
                0 <= j < definition_templates.len() && bind_target(
                    #[trigger] template_views(definition_templates@)[j],
                    connection@,
                ) is None,
        },
{
    let ghost templates = template_views(definition_templates@);
    let mut definitions: Vec<Definition> = Vec::new();
    let mut j: usize = 0;
    while j < definition_templates.len()
        invariant
            0 <= j <= definition_templates.len(),
            templates == template_views(definition_templates@),
            definitions.len() == j,
            forall|k: int|
                0 <= k < j ==> bind_target(#[trigger] templates[k], connection@) == Some(
                    definitions[k]@,
                ),
        decreases definition_templates.len() - j,
    {
        let definition_template = &definition_templates[j];
        assert(templates[j as int] == definition_template@);
        let definition = match definition_template {
            DefinitionTemplate::Http(_) => match &connection.target_fqdn {
                Some(fqdn) => definition_template.with_target(fqdn.as_str()),
                None => {
                    assert(bind_target(templates[j as int], connection@) is None);
                    return None;
                },
            },
            _ => definition_template.with_target(connection.target_ipv4.as_str()),
        };
        definitions.push(definition);
        j = j + 1;
    }
    assert(definitions@.map_values(|d: Definition| d@) =~= definitions_for(
        connection@,
        templates,
    ));
    Some(definitions)
}

/// Assembles one measurement specification per pairing.
///
/// Fails, with nothing assembled, exactly when an HTTP template meets a
/// target without a domain name.
pub fn create_api_configs(
    start_time: Option<u64>,
    stop_time: Option<u64>,
    connections: Vec<TargetWithSources>,
    definition_templates: Vec<DefinitionTemplate>,
) -> (outcome: Result<Vec<Config>, TransformError>)
    ensures
        match outcome {
            Ok(configs) => {
                &&& !assembly_fails(
                    pairing_views(connections@),
                    template_views(definition_templates@),
                )
                &&& config_views(configs@) == assembled(
                    start_time,
                    stop_time,
                    pairing_views(connections@),
                    template_views(definition_templates@),
                )
                &&& configs.len() == connections.len()
                &&& forall|i: int|
                    0 <= i < configs.len() ==> (#[trigger] configs[i])@ == specification_for(
                        start_time,
                        stop_time,
                        connections[i]@,
                        template_views(definition_templates@),
                    )
                &&& forall|i: int|
                    0 <= i < configs.len() ==> ((#[trigger] configs[i]).is_oneoff <==> stop_time
                        is None)
            },
            Err(e) => {
                &&& e == TransformError::MissingTargetFqdn
                &&& assembly_fails(
                    pairing_views(connections@),
                    template_views(definition_templates@),
                )
            },
        },
        outcome is Err <==> exists|i: int, j: int|
            #![trigger connections[i], definition_templates[j]]
            0 <= i < connections.len() && 0 <= j < definition_templates.len()
                && definition_templates[j] is Http && connections[i].target_fqdn is None,
{
    let ghost pairings = pairing_views(connections@);
    let ghost templates = template_views(definition_templates@);
    let mut configs: Vec<Config> = Vec::new();
    let mut i: usize = 0;
    while i < connections.len()
        invariant
            0 <= i <= connections.len(),
            pairings == pairing_views(connections@),
            templates == template_views(definition_templates@),
            configs.len() == i,
            forall|k: int, j: int|
                0 <= k < i && 0 <= j < templates.len() ==> #[trigger] bind_target(
                    templates[j],
                    pairings[k],
                ) is Some,
            forall|k: int|
                0 <= k < i ==> (#[trigger] configs[k])@ == specification_for(
                    start_time,
                    stop_time,
                    pairings[k],
                    templates,
                ),
        decreases connections.len() - i,
    {
        let connection = &connections[i];
        assert(pairings[i as int] == connection@);
        let definitions = match bind_all(connection, &definition_templates) {
            Some(definitions) => definitions,
            None => {
                proof {
                    let j = choose|j: int|
                        0 <= j < definition_templates.len() && bind_target(
                            #[trigger] templates[j],
                            connection@,
                        ) is None;
                    assert(bind_target(templates[j], pairings[i as int]) is None);
                    assert(templates[j] == definition_templates[j]@);
                    assert(definition_templates[j] is Http);
                    assert(connections[i as int].target_fqdn is None);
                }
                return Err(TransformError::MissingTargetFqdn);
            },
        };
        let mut probes: Vec<Probes> = Vec::new();
        probes.push(Probes::from_sources(&connection.sources));
        let config = Config::new(start_time, stop_time, definitions, probes);
        assert(config@.probes =~= seq![selection_of(connection@.sources)]);
        configs.push(config);
        i = i + 1;
    }
    assert(config_views(configs@) =~= assembled(start_time, stop_time, pairings, templates));
    assert forall|k: int| 0 <= k < configs.len() implies (#[trigger] configs[k])@
        == specification_for(start_time, stop_time, connections[k]@, templates) by {
        assert(pairings[k] == connections[k]@);
    }
    assert forall|k: int, j: int|
        #![trigger connections[k], definition_templates[j]]
        0 <= k < connections.len() && 0 <= j < definition_templates.len() implies !(
        definition_templates[j] is Http && connections[k].target_fqdn is None) by {
        assert(bind_target(templates[j], pairings[k]) is Some);
        assert(templates[j] == definition_templates[j]@);
        assert(pairings[k] == connections[k]@);
    }
    Ok(configs)
}

/// A point in time, given in seconds since the Unix epoch, as the platform
/// takes it: unchanged from the epoch on, and wrapped around the range of
/// `u64` before it.
pub open spec fn epoch_seconds(seconds: i64) -> u64 {
    if seconds >= 0 {
        seconds as u64
    } else {
        (seconds + 0x1_0000_0000_0000_0000) as u64
    }
}

/// An optional point in time as the platform takes it.
pub open spec fn optional_epoch_seconds(seconds: Option<i64>) -> Option<u64> {
    match seconds {
        Some(t) => Some(epoch_seconds(t)),
        None => None,
    }
}

/// Converts a point in time to the form the platform takes.
fn to_epoch_seconds(seconds: Option<i64>) -> (converted: Option<u64>)
    ensures
        converted == optional_epoch_seconds(seconds),
{
    match seconds {
        Some(t) => {
            if t >= 0 {
                Some(t as u64)
            } else {
                let below: u64 = (-(t + 1)) as u64;
                Some(u64::MAX - below)
            }
        },
        None => None,
    }
}

/// What planning gives for a configuration, the vantage points and the
/// description of the run.
///
/// A configuration without any measurement type is refused first, then
/// whatever [`expansion`] refuses, then an HTTP template that meets a target
/// without a domain name. Otherwise there is one measurement specification
/// per pairing, over the window of the configuration.
pub open spec fn planned(
    config: Configuration,
    probes: Seq<ProbeInformationView>,
    description: Seq<char>,
) -> Result<Seq<ConfigView>, TransformError> {
    let templates = requested_templates(config, description);
    if !any_type_configured(config) {
        Err(TransformError::NoMeasurementTypesConfigured)
    } else {
        match expansion(probes, config.http_configuration is Some, topology_mode(config)) {
            Err(e) => Err(e),
            Ok(pairings) => if assembly_fails(pairings, templates) {
                Err(TransformError::MissingTargetFqdn)
            } else {
                Ok(
                    assembled(
                        optional_epoch_seconds(config.start_time),
                        optional_epoch_seconds(config.end_time),
                        pairings,
                        templates,
                    ),
                )
            },
        }
    }
}

/// The mathematical content of the outcome of planning.
pub open spec fn plan_view(outcome: Result<Vec<Config>, TransformError>) -> Result<
    Seq<ConfigView>,
    TransformError,
> {
    match outcome {
        Ok(configs) => Ok(config_views(configs@)),
        Err(e) => Err(e),
    }
}

/// Assembles the pairings and the templates of one run.
fn assemble(
    measurement_configuration: Configuration,
    probe_information: Vec<ProbeInformation>,
    definition_templates: Vec<DefinitionTemplate>,
    Ghost(description): Ghost<Seq<char>>,
) -> (outcome: Result<Vec<Config>, TransformError>)
    requires
        any_type_configured(measurement_configuration),
        template_views(definition_templates@) == requested_templates(
            measurement_configuration,
            description,
        ),
    ensures
        plan_view(outcome) == planned(
            measurement_configuration,
            probe_views(probe_information@),
            description,
        ),
        outcome matches Ok(configs) ==> forall|i: int|
            0 <= i < configs.len() ==> ((#[trigger] configs[i]).is_oneoff
                <==> measurement_configuration.end_time is None),
{
    let connections = match generate_connections(probe_information, &measurement_configuration) {
        Ok(connections) => connections,
        Err(e) => {
            return Err(e);
        },
    };
    let start_time = to_epoch_seconds(measurement_configuration.start_time);
    let end_time = to_epoch_seconds(measurement_configuration.end_time);
    create_api_configs(start_time, end_time, connections, definition_templates)
}

/// Plans the measurements of a configuration between the given vantage
/// points, all described by `description`.
pub fn generate_api_configs_described(
    measurement_configuration: Configuration,
    probe_information: Vec<ProbeInformation>,
    description: &str,
) -> (outcome: Result<Vec<Config>, TransformError>)
    ensures
        plan_view(outcome) == planned(
            measurement_configuration,
            probe_views(probe_information@),
            description@,
        ),
        outcome matches Ok(configs) ==> forall|i: int|
            0 <= i < configs.len() ==> ((#[trigger] configs[i]).is_oneoff
                <==> measurement_configuration.end_time is None),
{
    let definition_templates = match templates_described(&measurement_configuration, description) {
        Ok(templates) => templates,
        Err(e) => {
            return Err(e);
        },
    };
    assemble(
        measurement_configuration,
        probe_information,
        definition_templates,
        Ghost(description@),
    )
}

/// Plans the measurements of a configuration between the given vantage
/// points, all described by one fresh random identifier.
///
/// The outcome is that of [`planned`] for some identifier text.
pub fn generate_api_configs(
    measurement_configuration: Configuration,
    probe_information: Vec<ProbeInformation>,
) -> (outcome: Result<Vec<Config>, TransformError>)
    ensures
        exists|description: Seq<char>|
            is_identifier_text(description) && plan_view(outcome) == #[trigger] planned(
                measurement_configuration,
                probe_views(probe_information@),
                description,
            ),
        outcome matches Ok(configs) ==> forall|i: int|
            0 <= i < configs.len() ==> ((#[trigger] configs[i]).is_oneoff
                <==> measurement_configuration.end_time is None),
{
    let definition_templates = match create_definition_templates(&measurement_configuration) {
        Ok(templates) => templates,
        Err(e) => {
            proof {
                // No description is used on this path: any identifier text serves.
                let any_description = Seq::new(
                    36,
                    |i: int|
                        if i == 8 || i == 13 || i == 18 || i == 23 {
                            '-'
                        } else {
                            '0'
                        },
                );
                assert(is_identifier_text(any_description));
                assert(plan_view(Err(e)) == planned(
                    measurement_configuration,
                    probe_views(probe_information@),
                    any_description,
                ));
            }
            return Err(e);
        },
    };
    let ghost description = choose|description: Seq<char>|
        is_identifier_text(description) && template_views(definition_templates@)
            == #[trigger] requested_templates(measurement_configuration, description);
    assemble(measurement_configuration, probe_information, definition_templates, Ghost(description))
}

/// An HTTP template can be bound to a target exactly when the target has a
/// domain name, and is then bound to that name.
pub proof fn lemma_http_binds_to_fqdn(template: DefinitionView, pairing: TargetWithSourcesView)
    requires
        template is Http,
    ensures
        bind_target(template, pairing) is None <==> pairing.target_fqdn is None,
        pairing.target_fqdn matches Some(fqdn) ==> bind_target(template, pairing) == Some(
            bound_to(template, fqdn),
        ),
{
}

/// A ping or traceroute template can be bound to every target, and is bound
/// to the target's address, whether or not the target has a domain name.
pub proof fn lemma_others_bind_to_address(template: DefinitionView, pairing: TargetWithSourcesView)
    requires
        !(template is Http),
    ensures
        bind_target(template, pairing) == Some(bound_to(template, pairing.target_ipv4)),
{
}

/// Every assembled measurement specification is one-off exactly when the
/// window has no stop time, whatever the start time is, and asks for as many
/// probes as its pairing has sources.
pub proof fn lemma_assembled_is_consistent(
    start_time: Option<u64>,
    stop_time: Option<u64>,
    pairings: Seq<TargetWithSourcesView>,
    templates: Seq<DefinitionView>,
    i: int,
)
    requires
        0 <= i < pairings.len(),
    ensures
        assembled(start_time, stop_time, pairings, templates).len() == pairings.len(),
        assembled(start_time, stop_time, pairings, templates)[i].is_consistent(),
        assembled(start_time, stop_time, pairings, templates)[i].is_oneoff <==> stop_time is None,
        assembled(start_time, stop_time, pairings, templates)[i].start_time == start_time,
        assembled(start_time, stop_time, pairings, templates)[i].stop_time == stop_time,
        assembled(start_time, stop_time, pairings, templates)[i].definitions.len()
            == templates.len(),
        assembled(start_time, stop_time, pairings, templates)[i].probes.len() == 1,
        pairings[i].sources.len() <= usize::MAX ==> assembled(
            start_time,
            stop_time,
            pairings,
            templates,
        )[i].probes[0].requested == pairings[i].sources.len(),
{
}

} // verus!
