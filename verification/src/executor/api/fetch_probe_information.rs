//! Vantage points as the platform describes them, and which of them a
//! configuration asks about.

use crate::common::configuration::configuration::Configuration;
use crate::text::chars::{eq_ignore_ascii_case, same_ignoring_ascii_case};
use crate::text::{decimal, decimal_string};
use vstd::prelude::*;
use vstd::string::*;

verus! {

/// A resolved vantage point: a probe or an anchor of the platform.
#[derive(Debug)]
pub struct ProbeInformation {
    pub probe_id: u32,
    pub address_v4: String,
    pub is_anchor: bool,
    pub fqdn: Option<String>,
}

/// The mathematical content of a [`ProbeInformation`].
pub struct ProbeInformationView {
    pub probe_id: u32,
    pub address_v4: Seq<char>,
    pub is_anchor: bool,
    pub fqdn: Option<Seq<char>>,
}

impl View for ProbeInformation {
    type V = ProbeInformationView;

    open spec fn view(&self) -> ProbeInformationView {
        ProbeInformationView {
            probe_id: self.probe_id,
            address_v4: self.address_v4@,
            is_anchor: self.is_anchor,
            fqdn: self.fqdn.deep_view(),
        }
    }
}

/// A field of a record that should hold an identifier.
#[derive(Debug, Clone, Copy, PartialEq, Eq, Structural)]
pub enum IdField {
    /// The record has no such field.
    Absent,
    /// The record has the field, and it holds no unsigned number.
    Other,
    /// The record has the field, and it holds this number.
    Number(u64),
}

/// The fields of the platform's description of a probe or an anchor that a
/// vantage point is read from. A text or a flag that is `None` is absent
/// from the record or of another type.
#[derive(Debug)]
pub struct ProbeRecord {
    /// The field `probe`.
    pub probe: IdField,
    /// The field `id`.
    pub id: IdField,
    /// The field `ip_v4`.
    pub ip_v4: Option<String>,
    /// The field `is_anchor`.
    pub is_anchor: Option<bool>,
    /// The field `type`.
    pub kind: Option<String>,
    /// The field `fqdn`.
    pub fqdn: Option<String>,
}

/// Why a record describes no vantage point.
#[derive(Debug, Clone, Copy, PartialEq, Eq, Structural)]
pub enum ProbeRecordError {
    /// Neither `probe` nor `id` gives an identifier.
    MissingId,
}

impl ProbeRecordError {
    /// The name of what is missing.
    pub fn missing_field(&self) -> (name: &'static str)
        ensures
            name@ == "id or probe"@,
    {
        "id or probe"
    }
}

/// The identifier that a record gives: that of `probe` where the record has
/// this field, else that of `id`. A field that holds no number gives none,
/// and `id` is not looked at where `probe` is there.
pub open spec fn record_identifier(probe: IdField, id: IdField) -> Option<u64> {
    match probe {
        IdField::Number(n) => Some(n),
        IdField::Other => None,
        IdField::Absent => match id {
            IdField::Number(n) => Some(n),
            _ => None,
        },
    }
}

/// Whether a record describes an anchor: what `is_anchor` says, else
/// whether `type` reads `anchor` in any case, else no.
pub open spec fn record_is_anchor(is_anchor: Option<bool>, kind: Option<Seq<char>>) -> bool {
    match is_anchor {
        Some(flag) => flag,
        None => match kind {
            Some(kind) => same_ignoring_ascii_case(kind, "anchor"@),
            None => false,
        },
    }
}

/// The vantage point that a record describes, if it gives an identifier.
/// The identifier is cut to its low 32 bits, and an absent address is empty.
pub open spec fn described(record: ProbeRecord) -> Option<ProbeInformationView> {
    match record_identifier(record.probe, record.id) {
        Some(n) => Some(
            ProbeInformationView {
                probe_id: (n % 0x1_0000_0000) as u32,
                address_v4: match record.ip_v4 {
                    Some(address) => address@,
                    None => Seq::empty(),
                },
                is_anchor: record_is_anchor(record.is_anchor, record.kind.deep_view()),
                fqdn: record.fqdn.deep_view(),
            },
        ),
        None => None,
    }
}

impl ProbeInformation {
    /// Reads a vantage point from the fields of a record.
    ///
    /// Fails exactly when the record gives no identifier.
    pub fn from_record(record: ProbeRecord) -> (outcome: Result<ProbeInformation, ProbeRecordError>)
        ensures
            match outcome {
                Ok(probe) => described(record) == Some(probe@),
                Err(e) => described(record) is None && e == ProbeRecordError::MissingId,
            },
    {
        let number: u64 = match record.probe {
            IdField::Number(n) => n,
            IdField::Other => {
                return Err(ProbeRecordError::MissingId);
            },
            IdField::Absent => match record.id {
                IdField::Number(n) => n,
                _ => {
                    return Err(ProbeRecordError::MissingId);
                },
            },
        };
        let probe_id: u32 = (number % 0x1_0000_0000) as u32;
        let is_anchor = match record.is_anchor {
            Some(flag) => flag,
            None => match &record.kind {
                Some(kind) => eq_ignore_ascii_case(kind.as_str(), "anchor"),
                None => false,
            },
        };
        let address_v4 = match record.ip_v4 {
            Some(address) => address,
            None => String::new(),
        };
        Ok(ProbeInformation { probe_id, address_v4, is_anchor, fqdn: record.fqdn })
    }
}

/// Why a configuration does not say which vantage points to ask about.
#[derive(Debug, Clone, Copy, PartialEq, Eq, Structural)]
pub enum FetchPlanError {
    /// The configuration lists anchors and probes at once.
    BothAnchorsAndProbes,
    /// The configuration lists neither anchors nor probes.
    NeitherAnchorsNorProbes,
}

impl FetchPlanError {
    /// A sentence that describes the failure.
    pub fn message(&self) -> (text: &'static str)
        ensures
            text@ == match *self {
                FetchPlanError::BothAnchorsAndProbes =>
                    "Configuration contains both anchors and probes."@,
                FetchPlanError::NeitherAnchorsNorProbes =>
                    "No anchors or probes are defined in the provided configuration."@,
            },
    {
        match self {
            FetchPlanError::BothAnchorsAndProbes => {
                "Configuration contains both anchors and probes."
            },
            FetchPlanError::NeitherAnchorsNorProbes => {
                "No anchors or probes are defined in the provided configuration."
            },
        }
    }
}

/// The vantage points to ask the platform about: the identifiers, and the
/// name of the collection that they are asked from.
#[derive(Debug)]
pub struct FetchPlan<'a> {
    pub endpoint: &'static str,
    pub ids: &'a Vec<u32>,
}

/// Decides which vantage points to ask the platform about.
///
/// A configuration lists either anchors or probes. One that lists both, or
/// neither, is refused.
pub fn fetch_plan<'a>(config: &'a Configuration) -> (outcome: Result<FetchPlan<'a>, FetchPlanError>)
    ensures
        match (config.anchors, config.probes) {
            (Some(_), Some(_)) => outcome == Err::<FetchPlan<'a>, FetchPlanError>(
                FetchPlanError::BothAnchorsAndProbes,
            ),
            (None, None) => outcome == Err::<FetchPlan<'a>, FetchPlanError>(
                FetchPlanError::NeitherAnchorsNorProbes,
            ),
            (Some(anchors), None) => outcome is Ok && outcome->Ok_0.endpoint@ == "anchors"@
                && *outcome->Ok_0.ids == anchors.anchors,
            (None, Some(probes)) => outcome is Ok && outcome->Ok_0.endpoint@ == "probes"@
                && *outcome->Ok_0.ids == probes.probes,
        },
{
    match (&config.anchors, &config.probes) {
        (Some(_), Some(_)) => Err(FetchPlanError::BothAnchorsAndProbes),
        (None, None) => Err(FetchPlanError::NeitherAnchorsNorProbes),
        (Some(anchor_config), None) => Ok(
            FetchPlan { endpoint: "anchors", ids: &anchor_config.anchors },
        ),
        (None, Some(probe_config)) => Ok(FetchPlan { endpoint: "probes", ids: &probe_config.probes }),
    }
}

/// The address at which the platform describes one vantage point.
pub fn probe_url(endpoint: &str, id: u32) -> (url: String)
    ensures
        url@ == "https://atlas.ripe.net/api/v2/"@ + endpoint@ + "/"@ + decimal(id as nat),
{
    let mut url = String::from_str("https://atlas.ripe.net/api/v2/");
    url.append(endpoint);
    url.append("/");
    let number = decimal_string(id as u64);
    url.append(number.as_str());
    url
}

} // verus!
