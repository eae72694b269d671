//! Topology expansion: from the vantage points to the pairings of one
//! target with the sources that probe it.

use crate::common::configuration::configuration::Configuration;
use crate::executor::api::fetch_probe_information::{ProbeInformation, ProbeInformationView};
use crate::executor::transform::TransformError;
use crate::text::{decimal, decimal_string, lemma_decimal_injective, text_is};
use vstd::prelude::*;
use vstd::string::*;

verus! {

/// One pairing: a target vantage point, by address and name, and the
/// identifiers of the vantage points that probe it.
#[derive(Debug)]
pub struct TargetWithSources {
    pub target_ipv4: String,
    pub target_fqdn: Option<String>,
    pub sources: Vec<String>,
}

/// The mathematical content of a [`TargetWithSources`].
pub struct TargetWithSourcesView {
    pub target_ipv4: Seq<char>,
    pub target_fqdn: Option<Seq<char>>,
    pub sources: Seq<Seq<char>>,
}

impl View for TargetWithSources {
    type V = TargetWithSourcesView;

    open spec fn view(&self) -> TargetWithSourcesView {
        TargetWithSourcesView {
            target_ipv4: self.target_ipv4@,
            target_fqdn: self.target_fqdn.deep_view(),
            sources: self.sources.deep_view(),
        }
    }
}

/// The position, among the vantage points, of the source at place `k` of
/// the pairing whose target is at position `target`.
pub open spec fn source_position(target: int, k: int) -> int {
    target + 1 + k
}

/// The number of sources of the pairing whose target is at position
/// `target` among `n` vantage points: all that come later.
pub open spec fn source_count(n: int, target: int) -> nat {
    if target < n {
        (n - 1 - target) as nat
    } else {
        0
    }
}

/// The identifier of a vantage point as text.
pub open spec fn identifier(probe: ProbeInformationView) -> Seq<char> {
    decimal(probe.probe_id as nat)
}

/// The pairing whose target is the vantage point at position `target`: its
/// sources are the vantage points after it, in their order.
pub open spec fn pairing_at(probes: Seq<ProbeInformationView>, target: int) -> TargetWithSourcesView {
    TargetWithSourcesView {
        target_ipv4: probes[target].address_v4,
        target_fqdn: probes[target].fqdn,
        sources: Seq::new(
            source_count(probes.len() as int, target),
            |k: int| identifier(probes[source_position(target, k)]),
        ),
    }
}

/// The pairings of the all-to-all topology: every vantage point but the
/// last is the target of one pairing, in the order of the vantage points.
pub open spec fn all_to_all(probes: Seq<ProbeInformationView>) -> Seq<TargetWithSourcesView> {
    Seq::new(
        if probes.len() == 0 {
            0
        } else {
            (probes.len() - 1) as nat
        },
        |target: int| pairing_at(probes, target),
    )
}

/// The views of the vantage points.
pub open spec fn probe_views(probes: Seq<ProbeInformation>) -> Seq<ProbeInformationView> {
    probes.map_values(|p: ProbeInformation| p@)
}

/// The views of the pairings.
pub open spec fn pairing_views(pairings: Seq<TargetWithSources>) -> Seq<TargetWithSourcesView> {
    pairings.map_values(|p: TargetWithSources| p@)
}

/// The identifiers of the vantage points after position `target`.
fn sources_after(probes: &Vec<ProbeInformation>, target: usize) -> (sources: Vec<String>)
    requires
        target < probes.len(),
    ensures
        sources.deep_view() == pairing_at(probe_views(probes@), target as int).sources,
{
    let ghost expected = pairing_at(probe_views(probes@), target as int).sources;
    let mut sources: Vec<String> = Vec::new();
    let mut j: usize = target + 1;
    while j < probes.len()
        invariant
            target < j <= probes.len(),
            expected == pairing_at(probe_views(probes@), target as int).sources,
            sources.len() == j - target - 1,
            forall|k: int| 0 <= k < sources.len() ==> (#[trigger] sources[k])@ == expected[k],
        decreases probes.len() - j,
    {
        let id = decimal_string(probes[j].probe_id as u64);
        assert(id@ == expected[j - target - 1]);
        sources.push(id);
        j = j + 1;
    }
    assert(sources.deep_view() =~= expected);
    sources
}

/// A copy of an optional text.
fn clone_optional_text(text: &Option<String>) -> (copy: Option<String>)
    ensures
        copy.deep_view() == text.deep_view(),
{
    match text {
        Some(t) => Some(t.clone()),
        None => None,
    }
}

/// Expands the vantage points into the pairings of the all-to-all topology.
///
/// The vantage point at position `i`, for every `i` but the last, becomes
/// the target of pairing `i`; its sources are the vantage points after it.
/// So each two vantage points meet in exactly one pairing, the earlier one
/// as the target, and the last vantage point is never a target.
pub fn generate_all_to_all_connections(probes: &Vec<ProbeInformation>) -> (connections: Vec<
    TargetWithSources,
>)
    ensures
        pairing_views(connections@) == all_to_all(probe_views(probes@)),
        probes.len() >= 1 ==> connections.len() == probes.len() - 1,
        probes.len() == 0 ==> connections.len() == 0,
        forall|target: int|
            0 <= target < connections.len() ==> (#[trigger] connections[target])@ == pairing_at(
                probe_views(probes@),
                target,
            ),
{
    let mut configurations: Vec<TargetWithSources> = Vec::new();
    let targets: usize = if probes.len() == 0 {
        0
    } else {
        probes.len() - 1
    };
    let mut i: usize = 0;
    while i < targets
        invariant
            targets == all_to_all(probe_views(probes@)).len(),
            targets < probes.len() || probes.len() == 0,
            i <= targets,
            i == configurations.len(),
            forall|t: int|
                0 <= t < i ==> (#[trigger] configurations[t])@ == pairing_at(
                    probe_views(probes@),
                    t,
                ),
        decreases targets - i,
    {
        let target_probe = &probes[i];
        let sources = sources_after(probes, i);
        let pairing = TargetWithSources {
            target_ipv4: target_probe.address_v4.clone(),
            target_fqdn: clone_optional_text(&target_probe.fqdn),
            sources,
        };
        assert(pairing@ == pairing_at(probe_views(probes@), i as int));
        configurations.push(pairing);
        i = i + 1;
    }
    assert(pairing_views(configurations@) =~= all_to_all(probe_views(probes@)));
    configurations
}

/// The name of the topology policy that a configuration asks for:
/// all-to-all where it names none.
pub open spec fn topology_mode(configuration: Configuration) -> Seq<char> {
    match configuration.topology {
        Some(topology) => topology.mode@,
        None => "all-to-all"@,
    }
}

/// Every vantage point is an anchor.
pub open spec fn all_anchors(probes: Seq<ProbeInformationView>) -> bool {
    forall|i: int| 0 <= i < probes.len() ==> (#[trigger] probes[i]).is_anchor
}

/// What expanding the vantage points gives.
///
/// Fewer than two vantage points are refused first. Then, where an HTTP
/// measurement is asked for, a vantage point that is no anchor is refused.
/// Then the policy decides: `"all-to-all"` gives the pairings of
/// [`all_to_all`], `"custom"` is not supported, and any other name is
/// invalid.
pub open spec fn expansion(
    probes: Seq<ProbeInformationView>,
    http_requested: bool,
    mode: Seq<char>,
) -> Result<Seq<TargetWithSourcesView>, TransformError> {
    if probes.len() < 2 {
        Err(TransformError::InsufficientVantagePoints)
    } else if http_requested && !all_anchors(probes) {
        Err(TransformError::NonAnchorProbeForHttp)
    } else if mode == "all-to-all"@ {
        Ok(all_to_all(probes))
    } else if mode == "custom"@ {
        Err(TransformError::NotImplemented)
    } else {
        Err(TransformError::InvalidTopologyMode)
    }
}

/// The mathematical content of the outcome of an expansion.
pub open spec fn expansion_view(outcome: Result<Vec<TargetWithSources>, TransformError>) -> Result<
    Seq<TargetWithSourcesView>,
    TransformError,
> {
    match outcome {
        Ok(connections) => Ok(pairing_views(connections@)),
        Err(e) => Err(e),
    }
}

/// Whether every vantage point is an anchor.
fn every_probe_is_anchor(probes: &Vec<ProbeInformation>) -> (all: bool)
    ensures
        all == all_anchors(probe_views(probes@)),
{
    let mut i: usize = 0;
    while i < probes.len()
        invariant
            0 <= i <= probes.len(),
            forall|k: int| 0 <= k < i ==> (#[trigger] probe_views(probes@)[k]).is_anchor,
        decreases probes.len() - i,
    {
        if !probes[i].is_anchor {
            assert(!probe_views(probes@)[i as int].is_anchor);
            return false;
        }
        i = i + 1;
    }
    true
}

/// Expands the vantage points into pairings under the topology policy of
/// the configuration.
pub fn generate_connections(probes: Vec<ProbeInformation>, configuration: &Configuration) -> (outcome:
    Result<Vec<TargetWithSources>, TransformError>)
    ensures
        expansion_view(outcome) == expansion(
            probe_views(probes@),
            configuration.http_configuration is Some,
            topology_mode(*configuration),
        ),
        probes.len() < 2 <==> outcome == Err::<Vec<TargetWithSources>, TransformError>(
            TransformError::InsufficientVantagePoints,
        ),
        outcome matches Ok(connections) ==> connections.len() == probes.len() - 1,
        outcome matches Ok(connections) ==> forall|target: int|
            0 <= target < connections.len() ==> (#[trigger] connections[target])@ == pairing_at(
                probe_views(probes@),
                target,
            ),
{
    if probes.len() < 2 {
        return Err(TransformError::InsufficientVantagePoints);
    }
    if configuration.http_configuration.is_some() && !every_probe_is_anchor(&probes) {
        return Err(TransformError::NonAnchorProbeForHttp);
    }
    let all_to_all_named = match &configuration.topology {
        Some(topology) => text_is(&topology.mode, "all-to-all"),
        None => true,
    };
    if all_to_all_named {
        let connections = generate_all_to_all_connections(&probes);
        return Ok(connections);
    }
    let custom_named = match &configuration.topology {
        Some(topology) => text_is(&topology.mode, "custom"),
        None => false,
    };
    if custom_named {
        Err(TransformError::NotImplemented)
    } else {
        Err(TransformError::InvalidTopologyMode)
    }
}

/// The place `k` of the pairing with target `target` exists among the
/// pairings of `n` vantage points.
pub open spec fn is_slot(n: int, target: int, k: int) -> bool {
    0 <= target < n - 1 && 0 <= k < source_count(n, target)
}

/// Among `n` vantage points the all-to-all topology has one pairing for
/// every vantage point but the last, and none where there is no vantage
/// point.
pub proof fn lemma_all_to_all_count(probes: Seq<ProbeInformationView>)
    ensures
        probes.len() >= 1 ==> all_to_all(probes).len() == probes.len() - 1,
        probes.len() == 0 ==> all_to_all(probes).len() == 0,
        forall|target: int|
            0 <= target < all_to_all(probes).len() ==> (#[trigger] all_to_all(
                probes,
            )[target]).sources.len() == source_count(probes.len() as int, target),
{
}

/// Every place of every pairing holds two different vantage points, the
/// target before the source: a pairing's sources never hold its own target,
/// and the last vantage point is never a target.
pub proof fn lemma_slot_is_pair(n: int, target: int, k: int)
    requires
        is_slot(n, target, k),
    ensures
        0 <= target < source_position(target, k) < n,
        target != n - 1,
{
}

/// Each two different vantage points meet in exactly one place of the
/// all-to-all pairings: the earlier one is the target of its pairing and
/// the later one stands among that pairing's sources, once.
pub proof fn lemma_each_pair_exactly_once(probes: Seq<ProbeInformationView>, a: int, b: int)
    requires
        0 <= a < b < probes.len(),
    ensures
        is_slot(probes.len() as int, a, b - a - 1),
        source_position(a, b - a - 1) == b,
        all_to_all(probes)[a].target_ipv4 == probes[a].address_v4,
        all_to_all(probes)[a].target_fqdn == probes[a].fqdn,
        all_to_all(probes)[a].sources[b - a - 1] == identifier(probes[b]),
        forall|target: int, k: int|
            #![trigger is_slot(probes.len() as int, target, k)]
            is_slot(probes.len() as int, target, k) && ((target == a && source_position(target, k)
                == b) || (target == b && source_position(target, k) == a)) ==> target == a && k
                == b - a - 1,
{
}

/// Where no two vantage points share an identifier, no pairing lists its
/// own target among its sources.
pub proof fn lemma_sources_exclude_target(probes: Seq<ProbeInformationView>, target: int)
    requires
        0 <= target < all_to_all(probes).len(),
        forall|i: int, j: int|
            0 <= i < j < probes.len() ==> probes[i].probe_id != probes[j].probe_id,
    ensures
        !all_to_all(probes)[target].sources.contains(identifier(probes[target])),
{
    let sources = all_to_all(probes)[target].sources;
    assert forall|k: int| 0 <= k < sources.len() implies sources[k] != identifier(
        probes[target],
    ) by {
        let j = source_position(target, k);
        if sources[k] == identifier(probes[target]) {
            lemma_decimal_injective(probes[j].probe_id as nat, probes[target].probe_id as nat);
            assert(false);
        }
    }
}

} // verus!
