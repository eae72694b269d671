//! What is written out: the records sorted by measurement type, and the
//! flat rows of each.

use crate::fetcher::api::results::{
    flattened_http, flattened_traceroute, kind_tag, AggregatedMeasurement,
    AggregatedMeasurementView, FlattenedHttpMeasurement, FlattenedHttpMeasurementView,
    FlattenedTraceRouteMeasurement, FlattenedTraceRouteMeasurementView, PingMeasurement,
    PingMeasurementView,
};
use vstd::prelude::*;
use vstd::string::*;

verus! {

/// One flat row, of the shape of its measurement type.
#[derive(Debug)]
pub enum FlattenedRow {
    Http(FlattenedHttpMeasurement),
    Ping(PingMeasurement),
    TraceRoute(FlattenedTraceRouteMeasurement),
}

/// The mathematical content of a [`FlattenedRow`].
pub enum FlattenedRowView {
    Http(FlattenedHttpMeasurementView),
    Ping(PingMeasurementView),
    TraceRoute(FlattenedTraceRouteMeasurementView),
}

impl View for FlattenedRow {
    type V = FlattenedRowView;

    open spec fn view(&self) -> FlattenedRowView {
        match self {
            FlattenedRow::Http(row) => FlattenedRowView::Http(row@),
            FlattenedRow::Ping(row) => FlattenedRowView::Ping(row@),
            FlattenedRow::TraceRoute(row) => FlattenedRowView::TraceRoute(row@),
        }
    }
}

/// Why a record could not be flattened.
#[derive(Debug, Clone, Copy, PartialEq, Eq, Structural)]
pub enum NormalizeError {
    /// An HTTP record carries no result entry.
    EmptyHttpResult,
}

impl NormalizeError {
    /// A sentence that describes the failure.
    pub fn message(&self) -> (text: &'static str)
        ensures
            text@ == "Http measurement should contain exactly one result, first() is none"@,
    {
        "Http measurement should contain exactly one result, first() is none"
    }
}

/// The rows of a record: one for a ping or an HTTP record, one per hop for a
/// traceroute record. An HTTP record without a result entry has none.
pub open spec fn flattened(m: AggregatedMeasurementView) -> Option<Seq<FlattenedRowView>> {
    match m {
        AggregatedMeasurementView::Ping(ping) => Some(seq![FlattenedRowView::Ping(ping)]),
        AggregatedMeasurementView::Http(http) => if http.result.len() > 0 {
            Some(seq![FlattenedRowView::Http(flattened_http(http))])
        } else {
            None
        },
        AggregatedMeasurementView::TraceRoute(traceroute) => Some(
            flattened_traceroute(traceroute).map_values(
                |row: FlattenedTraceRouteMeasurementView| FlattenedRowView::TraceRoute(row),
            ),
        ),
    }
}

/// The rows of the records, record after record, or nothing where one of
/// them has no rows.
pub open spec fn flattened_all(records: Seq<AggregatedMeasurementView>) -> Option<
    Seq<FlattenedRowView>,
>
    decreases records.len(),
{
    if records.len() == 0 {
        Some(Seq::empty())
    } else {
        match (flattened_all(records.drop_last()), flattened(records.last())) {
            (Some(earlier), Some(rows)) => Some(earlier + rows),
            _ => None,
        }
    }
}

/// The views of the rows.
pub open spec fn row_views(rows: Seq<FlattenedRow>) -> Seq<FlattenedRowView> {
    rows.map_values(|row: FlattenedRow| row@)
}

/// The views of the records that the references point to.
pub open spec fn record_views(records: Seq<&AggregatedMeasurement>) -> Seq<
    AggregatedMeasurementView,
> {
    records.map_values(|m: &AggregatedMeasurement| m@)
}

/// Wraps the rows of a traceroute record.
fn traceroute_rows(hops: Vec<FlattenedTraceRouteMeasurement>) -> (rows: Vec<FlattenedRow>)
    ensures
        row_views(rows@) == hops@.map_values(|r: FlattenedTraceRouteMeasurement| r@).map_values(
            |row: FlattenedTraceRouteMeasurementView| FlattenedRowView::TraceRoute(row),
        ),
{
    let ghost all = hops@;
    let mut rows: Vec<FlattenedRow> = Vec::new();
    for hop in it: hops
        invariant
            it.seq() == all,
            rows.len() == it.index(),
            forall|k: int|
                0 <= k < rows.len() ==> (#[trigger] rows[k])@ == FlattenedRowView::TraceRoute(
                    all[k]@,
                ),
    {
        rows.push(FlattenedRow::TraceRoute(hop));
    }
    assert(row_views(rows@) =~= all.map_values(|r: FlattenedTraceRouteMeasurement| r@).map_values(
        |row: FlattenedTraceRouteMeasurementView| FlattenedRowView::TraceRoute(row),
    ));
    rows
}

/// Flattens one record into its rows.
///
/// Fails exactly for an HTTP record without a result entry.
pub fn flatten(measurement: &AggregatedMeasurement) -> (outcome: Result<
    Vec<FlattenedRow>,
    NormalizeError,
>)
    ensures
        match outcome {
            Ok(rows) => flattened(measurement@) == Some(row_views(rows@)),
            Err(e) => flattened(measurement@) is None && e == NormalizeError::EmptyHttpResult,
        },
        outcome matches Ok(rows) ==> rows.len() == flattened(measurement@)->0.len(),
        outcome matches Ok(rows) ==> forall|i: int|
            0 <= i < rows.len() ==> (#[trigger] rows[i])@ == flattened(measurement@)->0[i],
{
    match measurement {
        AggregatedMeasurement::Ping(ping) => {
            let mut rows: Vec<FlattenedRow> = Vec::new();
            rows.push(FlattenedRow::Ping(ping.flatten()));
            assert(row_views(rows@) =~= seq![FlattenedRowView::Ping(ping@)]);
            assert(row_views(rows@)[0] == rows[0]@);
            Ok(rows)
        },
        AggregatedMeasurement::Http(http) => {
            if http.result.len() == 0 {
                return Err(NormalizeError::EmptyHttpResult);
            }
            let mut rows: Vec<FlattenedRow> = Vec::new();
            rows.push(FlattenedRow::Http(FlattenedHttpMeasurement::from_http_measurement(http)));
            assert(row_views(rows@) =~= seq![FlattenedRowView::Http(flattened_http(http@))]);
            assert(row_views(rows@)[0] == rows[0]@);
            Ok(rows)
        },
        AggregatedMeasurement::TraceRoute(traceroute) => {
            let hops = FlattenedTraceRouteMeasurement::from_traceroute_measurement(traceroute);
            let rows = traceroute_rows(hops);
            assert forall|i: int| 0 <= i < rows.len() implies (#[trigger] rows[i])@ == flattened(
                measurement@,
            )->0[i] by {
                assert(row_views(rows@)[i] == rows[i]@);
            }
            Ok(rows)
        },
    }
}

/// Flattens the records into the rows of one table, record after record.
///
/// Fails, with no rows, as soon as one record cannot be flattened.
pub fn flatten_all(measurements: &[&AggregatedMeasurement]) -> (outcome: Result<
    Vec<FlattenedRow>,
    NormalizeError,
>)
    ensures
        match outcome {
            Ok(rows) => flattened_all(record_views(measurements@)) == Some(row_views(rows@)),
            Err(e) => flattened_all(record_views(measurements@)) is None && e
                == NormalizeError::EmptyHttpResult,
        },
        outcome matches Ok(rows) ==> rows.len() == flattened_all(
            record_views(measurements@),
        )->0.len(),
        outcome matches Ok(rows) ==> forall|i: int|
            0 <= i < rows.len() ==> (#[trigger] rows[i])@ == flattened_all(
                record_views(measurements@),
            )->0[i],
{
    let ghost records = record_views(measurements@);
    let mut rows: Vec<FlattenedRow> = Vec::new();
    let mut i: usize = 0;
    while i < measurements.len()
        invariant
            0 <= i <= measurements.len(),
            records == record_views(measurements@),
            flattened_all(records.take(i as int)) == Some(row_views(rows@)),
        decreases measurements.len() - i,
    {
        proof {
            assert(records.take(i + 1).drop_last() =~= records.take(i as int));
            assert(records.take(i + 1).last() == measurements[i as int]@);
        }
        let ghost before = row_views(rows@);
        match flatten(measurements[i]) {
            Ok(more) => {
                let mut more = more;
                let ghost added = row_views(more@);
                rows.append(&mut more);
                assert(row_views(rows@) =~= before + added);
            },
            Err(e) => {
                proof {
                    lemma_failure_persists(records, i + 1);
                }
                return Err(e);
            },
        }
        i = i + 1;
    }
    assert(records.take(i as int) =~= records);
    assert forall|k: int| 0 <= k < rows.len() implies (#[trigger] rows[k])@ == flattened_all(
        records,
    )->0[k] by {
        assert(row_views(rows@)[k] == rows[k]@);
    }
    Ok(rows)
}

/// Once the records up to some place have no rows, the whole list has none.
proof fn lemma_failure_persists(records: Seq<AggregatedMeasurementView>, upto: int)
    requires
        0 <= upto <= records.len(),
        flattened_all(records.take(upto)) is None,
    ensures
        flattened_all(records) is None,
    decreases records.len() - upto,
{
    if upto < records.len() {
        assert(records.take(upto + 1).drop_last() =~= records.take(upto));
        lemma_failure_persists(records, upto + 1);
    } else {
        assert(records.take(upto) =~= records);
    }
}

/// The records whose measurement type has the tag `kind`, in their order.
pub open spec fn records_of_kind(
    records: Seq<AggregatedMeasurementView>,
    kind: Seq<char>,
) -> Seq<AggregatedMeasurementView>
    decreases records.len(),
{
    if records.len() == 0 {
        Seq::empty()
    } else {
        let earlier = records_of_kind(records.drop_last(), kind);
        if kind_tag(records.last()) == kind {
            earlier.push(records.last())
        } else {
            earlier
        }
    }
}

/// The records sorted by measurement type. Within a type they keep their
/// order.
pub struct Buckets<'a> {
    pub http: Vec<&'a AggregatedMeasurement>,
    pub ping: Vec<&'a AggregatedMeasurement>,
    pub traceroute: Vec<&'a AggregatedMeasurement>,
}

/// The three tags are pairwise different.
pub proof fn lemma_tags_differ()
    ensures
        "http"@ != "ping"@,
        "http"@ != "traceroute"@,
        "ping"@ != "traceroute"@,
{
    reveal_strlit("http");
    reveal_strlit("ping");
    reveal_strlit("traceroute");
    assert("http"@.len() == 4);
    assert("ping"@.len() == 4);
    assert("traceroute"@.len() == 10);
    assert("http"@[0] == 'h');
    assert("ping"@[0] == 'p');
}

/// Sorts the records by measurement type.
pub fn sort_by_type<'a>(measurements: &'a [AggregatedMeasurement]) -> (buckets: Buckets<'a>)
    ensures
        record_views(buckets.http@) == records_of_kind(
            measurements@.map_values(|m: AggregatedMeasurement| m@),
            "http"@,
        ),
        record_views(buckets.ping@) == records_of_kind(
            measurements@.map_values(|m: AggregatedMeasurement| m@),
            "ping"@,
        ),
        record_views(buckets.traceroute@) == records_of_kind(
            measurements@.map_values(|m: AggregatedMeasurement| m@),
            "traceroute"@,
        ),
        buckets.http.len() + buckets.ping.len() + buckets.traceroute.len() == measurements.len(),
{
    let ghost records = measurements@.map_values(|m: AggregatedMeasurement| m@);
    let mut http: Vec<&'a AggregatedMeasurement> = Vec::new();
    let mut ping: Vec<&'a AggregatedMeasurement> = Vec::new();
    let mut traceroute: Vec<&'a AggregatedMeasurement> = Vec::new();
    let mut i: usize = 0;
    while i < measurements.len()
        invariant
            0 <= i <= measurements.len(),
            records == measurements@.map_values(|m: AggregatedMeasurement| m@),
            record_views(http@) == records_of_kind(records.take(i as int), "http"@),
            record_views(ping@) == records_of_kind(records.take(i as int), "ping"@),
            record_views(traceroute@) == records_of_kind(records.take(i as int), "traceroute"@),
            http.len() + ping.len() + traceroute.len() == i,
        decreases measurements.len() - i,
    {
        proof {
            lemma_tags_differ();
            assert(records.take(i + 1).drop_last() =~= records.take(i as int));
            assert(records.take(i + 1).last() == measurements[i as int]@);
        }
        let item = &measurements[i];
        let ghost http_before = record_views(http@);
        let ghost ping_before = record_views(ping@);
        let ghost traceroute_before = record_views(traceroute@);
        match item {
            AggregatedMeasurement::Http(_) => {
                http.push(item);
                assert(record_views(http@) =~= http_before.push(item@));
            },
            AggregatedMeasurement::Ping(_) => {
                ping.push(item);
                assert(record_views(ping@) =~= ping_before.push(item@));
            },
            AggregatedMeasurement::TraceRoute(_) => {
                traceroute.push(item);
                assert(record_views(traceroute@) =~= traceroute_before.push(item@));
            },
        }
        i = i + 1;
    }
    assert(records.take(i as int) =~= records);
    Buckets { http, ping, traceroute }
}

/// The name of the file that holds the rows of one measurement type: the
/// type's tag followed by `.csv`.
pub fn file_name(kind: &str) -> (name: String)
    ensures
        name@ == kind@ + ".csv"@,
{
    String::from_str(kind).concat(".csv")
}

} // verus!
