//! The definition templates that a configuration asks for.

use crate::common::configuration::configuration::Configuration;
use crate::common::configuration::http::HttpConfig;
use crate::common::configuration::ping::PingConfig;
use crate::common::configuration::traceroute::TracerouteConfig;
use crate::executor::domain::definition::{
    http_defaults, ping_defaults, traceroute_defaults, DefinitionTemplate, DefinitionView,
    HttpDefinition, HttpDefinitionView, PingDefinition, PingDefinitionView, TracerouteDefinition,
    TracerouteDefinitionView,
};
use crate::executor::transform::TransformError;
use vstd::prelude::*;
use vstd::string::*;

verus! {

/// The ping template of a configuration: the defaults with the configured
/// packets, and the description and interval of the run.
pub open spec fn ping_template(
    config: PingConfig,
    description: Seq<char>,
    interval: Option<u32>,
) -> PingDefinitionView {
    PingDefinitionView {
        description,
        packets: config.packet_count,
        size: config.size,
        interval,
        ..ping_defaults()
    }
}

/// The HTTP template of a configuration: the defaults with the configured
/// request, copied as it is, and the description and interval of the run.
pub open spec fn http_template(
    config: HttpConfig,
    description: Seq<char>,
    interval: Option<u32>,
) -> HttpDefinitionView {
    HttpDefinitionView {
        description,
        method: config.method@,
        path: config.path@,
        port: config.port,
        header_bytes: config.header_bytes,
        version: config.version,
        interval,
        ..http_defaults()
    }
}

/// The traceroute template of a configuration: the defaults with the
/// configured packets and path limits, and the description and interval of
/// the run.
pub open spec fn traceroute_template(
    config: TracerouteConfig,
    description: Seq<char>,
    interval: Option<u32>,
) -> TracerouteDefinitionView {
    TracerouteDefinitionView {
        description,
        first_hop: config.first_hop,
        protocol: config.protocol@,
        packets: config.packets,
        size: config.size,
        max_hops: config.max_hops,
        paris: config.paris,
        dont_fragment: config.dont_fragment,
        port: config.port,
        interval,
        ..traceroute_defaults()
    }
}

/// The templates that a configuration asks for, all under one description:
/// one for each measurement type that is configured, ping before HTTP
/// before traceroute.
pub open spec fn requested_templates(config: Configuration, description: Seq<char>) -> Seq<
    DefinitionView,
> {
    let ping = match config.ping_configuration {
        Some(ping) => seq![DefinitionView::Ping(ping_template(ping, description, config.interval))],
        None => Seq::empty(),
    };
    let http = match config.http_configuration {
        Some(http) => seq![DefinitionView::Http(http_template(http, description, config.interval))],
        None => Seq::empty(),
    };
    let traceroute = match config.traceroute_configuration {
        Some(traceroute) => seq![
            DefinitionView::Traceroute(
                traceroute_template(traceroute, description, config.interval),
            ),
        ],
        None => Seq::empty(),
    };
    ping + http + traceroute
}

/// The configuration asks for at least one measurement type.
pub open spec fn any_type_configured(config: Configuration) -> bool {
    config.ping_configuration is Some || config.http_configuration is Some
        || config.traceroute_configuration is Some
}

/// The views of the templates.
pub open spec fn template_views(templates: Seq<DefinitionTemplate>) -> Seq<DefinitionView> {
    templates.map_values(|t: DefinitionTemplate| t@)
}

/// The text of a random identifier: 36 characters, lower-case hexadecimal
/// digits in groups of 8, 4, 4, 4 and 12 with a hyphen between the groups.
pub open spec fn is_identifier_text(text: Seq<char>) -> bool {
    &&& text.len() == 36
    &&& forall|i: int|
        0 <= i < 36 ==> if i == 8 || i == 13 || i == 18 || i == 23 {
            text[i] == '-'
        } else {
            ('0' <= #[trigger] text[i] && text[i] <= '9') || ('a' <= text[i] && text[i] <= 'f')
        }
}

/// A fresh random identifier as text.
///
/// Calls `uuid::Uuid::new_v4` and renders the result with its `Display`.
/// Trusted: the text has the hyphenated lower-case shape, whatever the
/// random bits are. Nothing is claimed about which identifier comes out, and
/// two calls may differ.
#[verifier::external_body]
fn fresh_identifier() -> (text: String)
    ensures
        is_identifier_text(text@),
{
    uuid::Uuid::new_v4().to_string()
}

/// Builds the templates that the configuration asks for, all described by
/// `description`.
///
/// Fails exactly when no measurement type is configured.
pub fn templates_described(config: &Configuration, description: &str) -> (outcome: Result<
    Vec<DefinitionTemplate>,
    TransformError,
>)
    ensures
        any_type_configured(*config) ==> outcome is Ok && template_views(outcome->Ok_0@)
            == requested_templates(*config, description@),
        outcome matches Ok(templates) ==> templates.len() == requested_templates(
            *config,
            description@,
        ).len(),
        outcome matches Ok(templates) ==> forall|i: int|
            0 <= i < templates.len() ==> (#[trigger] templates[i])@ == requested_templates(
                *config,
                description@,
            )[i],
        !any_type_configured(*config) ==> outcome == Err::<
            Vec<DefinitionTemplate>,
            TransformError,
        >(TransformError::NoMeasurementTypesConfigured),
{
    let mut templates: Vec<DefinitionTemplate> = Vec::new();
    let ghost ping_part: Seq<DefinitionView> = Seq::empty();
    let ghost http_part: Seq<DefinitionView> = Seq::empty();

    if let Some(ping_config) = &config.ping_configuration {
        let ping_template = PingDefinition::template().description(description).packets(
            ping_config.packet_count,
        ).size(ping_config.size).interval(config.interval);
        templates.push(DefinitionTemplate::Ping(ping_template));
    }
    assert(template_views(templates@) =~= match config.ping_configuration {
        Some(ping) => seq![
            DefinitionView::Ping(ping_template(ping, description@, config.interval)),
        ],
        None => Seq::empty(),
    });
    let ghost after_ping = template_views(templates@);

    if let Some(http_config) = &config.http_configuration {
        let https_template = HttpDefinition::template().description(description).method(
            http_config.method.clone(),
        ).path(http_config.path.clone()).port(http_config.port).header_bytes(
            http_config.header_bytes,
        ).version(http_config.version).interval(config.interval);
        templates.push(DefinitionTemplate::Http(https_template));
    }
    assert(template_views(templates@) =~= after_ping + match config.http_configuration {
        Some(http) => seq![
            DefinitionView::Http(http_template(http, description@, config.interval)),
        ],
        None => Seq::empty(),
    });
    let ghost after_http = template_views(templates@);

    if let Some(traceroute_config) = &config.traceroute_configuration {
        let traceroute_template = TracerouteDefinition::template().description(
            description,
        ).first_hop(traceroute_config.first_hop).protocol(
            traceroute_config.protocol.clone(),
        ).packets(traceroute_config.packets).size(traceroute_config.size).max_hops(
            traceroute_config.max_hops,
        ).paris(traceroute_config.paris).dont_fragment(traceroute_config.dont_fragment).port(
            traceroute_config.port,
        ).interval(config.interval);
        templates.push(DefinitionTemplate::Traceroute(traceroute_template));
    }
    assert(template_views(templates@) =~= after_http + match config.traceroute_configuration {
        Some(traceroute) => seq![
            DefinitionView::Traceroute(
                traceroute_template(traceroute, description@, config.interval),
            ),
        ],
        None => Seq::empty(),
    });

    if templates.is_empty() {
        return Err(TransformError::NoMeasurementTypesConfigured);
    }
    assert forall|i: int| 0 <= i < templates.len() implies (#[trigger] templates[i])@
        == requested_templates(*config, description@)[i] by {
        assert(template_views(templates@)[i] == templates[i]@);
    }
    Ok(templates)
}

/// Builds the templates that the configuration asks for, all described by
/// one fresh random identifier.
///
/// Fails exactly when no measurement type is configured. Otherwise the
/// templates are those of [`requested_templates`] for some identifier text.
pub fn create_definition_templates(config: &Configuration) -> (outcome: Result<
    Vec<DefinitionTemplate>,
    TransformError,
>)
    ensures
        any_type_configured(*config) ==> outcome is Ok && exists|description: Seq<char>|
            is_identifier_text(description) && template_views(outcome->Ok_0@)
                == #[trigger] requested_templates(*config, description),
        !any_type_configured(*config) ==> outcome == Err::<
            Vec<DefinitionTemplate>,
            TransformError,
        >(TransformError::NoMeasurementTypesConfigured),
{
    let uuid = fresh_identifier();
    templates_described(config, uuid.as_str())
}

/// A configuration that asks for all three measurement types gets three
/// templates: ping first, HTTP second, traceroute third. One that asks for
/// none gets none.
pub proof fn lemma_templates_in_fixed_order(config: Configuration, description: Seq<char>)
    ensures
        config.ping_configuration is Some && config.http_configuration is Some
            && config.traceroute_configuration is Some ==> {
            &&& requested_templates(config, description).len() == 3
            &&& requested_templates(config, description)[0] is Ping
            &&& requested_templates(config, description)[1] is Http
            &&& requested_templates(config, description)[2] is Traceroute
        },
        !any_type_configured(config) <==> requested_templates(config, description).len() == 0,
{
}

/// Whatever is configured, the templates come by type, ping before HTTP
/// before traceroute, and no type comes twice.
pub proof fn lemma_templates_ordered_by_type(
    config: Configuration,
    description: Seq<char>,
    i: int,
    j: int,
)
    requires
        0 <= i < j < requested_templates(config, description).len(),
    ensures
        !(requested_templates(config, description)[j] is Ping),
        !(requested_templates(config, description)[i] is Traceroute),
        requested_templates(config, description)[i] is Http ==> requested_templates(
            config,
            description,
        )[j] is Traceroute,
{
}

} // verus!
