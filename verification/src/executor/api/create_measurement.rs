//! Creating measurements on the platform: what is sent along, how an answer
//! is judged, and what is kept of it.

use crate::common::measurement_ids::MeasurementIds;
use crate::text::{decimal, decimal_string};
use vstd::prelude::*;
use vstd::string::*;

verus! {

/// The platform's answer to a created measurement specification: the
/// identifiers of the measurements that it started.
#[derive(Debug)]
pub struct Measurement {
    pub measurements: Vec<u64>,
}

/// The address at which measurements are created.
pub fn measurements_url() -> (url: &'static str)
    ensures
        url@ == "https://atlas.ripe.net/api/v2/measurements"@,
{
    "https://atlas.ripe.net/api/v2/measurements"
}

/// The value of the authorization header for an API key.
pub fn authorization(api_key: &str) -> (value: String)
    ensures
        value@ == "Key "@ + api_key@,
{
    String::from_str("Key ").concat(api_key)
}

/// An answer of the platform that reports a failure.
#[derive(Debug)]
pub struct ApiFailure {
    pub status: u16,
    pub body: String,
}

/// Whether a status code reports success: the codes from 200 to 299.
pub open spec fn is_success(status: u16) -> bool {
    200 <= status < 300
}

/// Judges an answer of the platform by its status code: the body of a
/// successful answer is handed on, and any other answer is a failure.
pub fn successful_body(status: u16, body: String) -> (outcome: Result<String, ApiFailure>)
    ensures
        outcome == if is_success(status) {
            Ok::<String, ApiFailure>(body)
        } else {
            Err::<String, ApiFailure>(ApiFailure { status, body })
        },
{
    if 200 <= status && status < 300 {
        Ok(body)
    } else {
        Err(ApiFailure { status, body })
    }
}

/// The identifiers that are kept of the platform's answers: the first of
/// each answer that has one, as text, in the order of the answers.
pub open spec fn first_identifiers(answers: Seq<Measurement>) -> Seq<Seq<char>>
    decreases answers.len(),
{
    if answers.len() == 0 {
        Seq::empty()
    } else {
        let earlier = first_identifiers(answers.drop_last());
        if answers.last().measurements@.len() > 0 {
            earlier.push(decimal(answers.last().measurements@[0] as nat))
        } else {
            earlier
        }
    }
}

/// Collects the identifiers that are kept of the platform's answers.
pub fn collect_measurement_ids(measurements: &Vec<Measurement>) -> (collected: MeasurementIds)
    ensures
        collected.ids.deep_view() == first_identifiers(measurements@),
{
    let mut ids: Vec<String> = Vec::new();
    let mut i: usize = 0;
    while i < measurements.len()
        invariant
            0 <= i <= measurements.len(),
            ids.deep_view() == first_identifiers(measurements@.take(i as int)),
        decreases measurements.len() - i,
    {
        proof {
            assert(measurements@.take(i + 1).drop_last() =~= measurements@.take(i as int));
        }
        let ghost before = ids.deep_view();
        if measurements[i].measurements.len() > 0 {
            let id = decimal_string(measurements[i].measurements[0]);
            ids.push(id);
            assert(ids.deep_view() =~= before.push(id@));
        }
        i = i + 1;
    }
    assert(measurements@.take(i as int) =~= measurements@);
    MeasurementIds::new(ids)
}

} // verus!
