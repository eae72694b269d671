//! Result records as the platform reports them, and the flat rows they are
//! normalised into.
//!
//! A ping record already is a flat row. An HTTP record carries one result
//! entry whose missing parts are replaced by timeout sentinels. A traceroute
//! record yields one row per hop, with the extrema and the mean of the
//! round-trip times recorded at that hop.
//!
//! All durations are signed counts of nanoseconds.

use crate::fetcher::api::rtt::{
    floor_div, is_greatest, is_least, lemma_greatest_is_max, lemma_least_is_min,
    lemma_mean_between_extrema, lemma_total_bounds, mean, total,
};
use vstd::prelude::*;
use vstd::string::*;

verus! {

/// One record returned by the platform, tagged by its measurement type.
#[derive(Debug)]
pub enum AggregatedMeasurement {
    Http(HttpMeasurement),
    Ping(PingMeasurement),
    TraceRoute(TraceRouteMeasurement),
}

/// The mathematical content of an [`AggregatedMeasurement`].
pub enum AggregatedMeasurementView {
    Http(HttpMeasurementView),
    Ping(PingMeasurementView),
    TraceRoute(TraceRouteMeasurementView),
}

impl View for AggregatedMeasurement {
    type V = AggregatedMeasurementView;

    open spec fn view(&self) -> AggregatedMeasurementView {
        match self {
            AggregatedMeasurement::Http(m) => AggregatedMeasurementView::Http(m@),
            AggregatedMeasurement::Ping(m) => AggregatedMeasurementView::Ping(m@),
            AggregatedMeasurement::TraceRoute(m) => AggregatedMeasurementView::TraceRoute(m@),
        }
    }
}

impl AggregatedMeasurement {
    /// The tag of the record's measurement type: `"http"`, `"ping"` or
    /// `"traceroute"`.
    pub fn kind(&self) -> (tag: &str)
        ensures
            tag@ == kind_tag(self@),
    {
        match self {
            AggregatedMeasurement::Http(_) => "http",
            AggregatedMeasurement::Ping(_) => "ping",
            AggregatedMeasurement::TraceRoute(_) => "traceroute",
        }
    }
}

/// The tag under which a record's rows are grouped.
pub open spec fn kind_tag(m: AggregatedMeasurementView) -> Seq<char> {
    match m {
        AggregatedMeasurementView::Http(_) => "http"@,
        AggregatedMeasurementView::Ping(_) => "ping"@,
        AggregatedMeasurementView::TraceRoute(_) => "traceroute"@,
    }
}

/// A ping record. It is its own flat row.
#[derive(Debug)]
pub struct PingMeasurement {
    pub dst_addr: String,
    pub src_addr: String,
    pub proto: String,
    pub rcvd: u32,
    pub sent: u32,
    pub min: i64,
    pub max: i64,
    pub avg: i64,
    pub msm_id: u32,
    pub timestamp: usize,
    pub prb_id: u32,
}

/// The mathematical content of a [`PingMeasurement`].
pub struct PingMeasurementView {
    pub dst_addr: Seq<char>,
    pub src_addr: Seq<char>,
    pub proto: Seq<char>,
    pub rcvd: u32,
    pub sent: u32,
    pub min: i64,
    pub max: i64,
    pub avg: i64,
    pub msm_id: u32,
    pub timestamp: usize,
    pub prb_id: u32,
}

impl View for PingMeasurement {
    type V = PingMeasurementView;

    open spec fn view(&self) -> PingMeasurementView {
        PingMeasurementView {
            dst_addr: self.dst_addr@,
            src_addr: self.src_addr@,
            proto: self.proto@,
            rcvd: self.rcvd,
            sent: self.sent,
            min: self.min,
            max: self.max,
            avg: self.avg,
            msm_id: self.msm_id,
            timestamp: self.timestamp,
            prb_id: self.prb_id,
        }
    }
}

impl PingMeasurement {
    /// The flat row of a ping record: the record itself, field by field.
    pub fn flatten(&self) -> (row: PingMeasurement)
        ensures
            row@ == self@,
    {
        PingMeasurement {
            dst_addr: self.dst_addr.clone(),
            src_addr: self.src_addr.clone(),
            proto: self.proto.clone(),
            rcvd: self.rcvd,
            sent: self.sent,
            min: self.min,
            max: self.max,
            avg: self.avg,
            msm_id: self.msm_id,
            timestamp: self.timestamp,
            prb_id: self.prb_id,
        }
    }
}

/// An HTTP record: the time to resolve and the per-probe result entries.
#[derive(Debug)]
pub struct HttpMeasurement {
    pub ttr: i64,
    pub result: Vec<HttpResult>,
    pub msm_id: u32,
    pub timestamp: usize,
    pub prb_id: u32,
}

/// The mathematical content of an [`HttpMeasurement`].
pub struct HttpMeasurementView {
    pub ttr: i64,
    pub result: Seq<HttpResultView>,
    pub msm_id: u32,
    pub timestamp: usize,
    pub prb_id: u32,
}

impl View for HttpMeasurement {
    type V = HttpMeasurementView;

    open spec fn view(&self) -> HttpMeasurementView {
        HttpMeasurementView {
            ttr: self.ttr,
            result: self.result@.map_values(|r: HttpResult| r@),
            msm_id: self.msm_id,
            timestamp: self.timestamp,
            prb_id: self.prb_id,
        }
    }
}

/// One result entry of an HTTP record. The optional parts are absent when
/// the request timed out.
#[derive(Debug)]
pub struct HttpResult {
    pub method: String,
    pub dst_addr: String,
    pub src_addr: Option<String>,
    pub rt: Option<i64>,
    pub res: Option<u32>,
    pub ver: Option<String>,
    pub hsize: Option<u32>,
    pub bsize: Option<u32>,
}

/// The mathematical content of an [`HttpResult`].
pub struct HttpResultView {
    pub method: Seq<char>,
    pub dst_addr: Seq<char>,
    pub src_addr: Option<Seq<char>>,
    pub rt: Option<i64>,
    pub res: Option<u32>,
    pub ver: Option<Seq<char>>,
    pub hsize: Option<u32>,
    pub bsize: Option<u32>,
}

impl View for HttpResult {
    type V = HttpResultView;

    open spec fn view(&self) -> HttpResultView {
        HttpResultView {
            method: self.method@,
            dst_addr: self.dst_addr@,
            src_addr: self.src_addr.deep_view(),
            rt: self.rt,
            res: self.res,
            ver: self.ver.deep_view(),
            hsize: self.hsize,
            bsize: self.bsize,
        }
    }
}

/// The flat row of an HTTP record.
#[derive(Debug)]
pub struct FlattenedHttpMeasurement {
    pub ttr: i64,
    pub method: String,
    pub dst_addr: String,
    pub src_addr: String,
    pub rt: i64,
    pub res: u32,
    pub ver: String,
    pub hsize: u32,
    pub bsize: u32,
    pub msm_id: u32,
    pub timestamp: usize,
    pub prb_id: u32,
}

/// The mathematical content of a [`FlattenedHttpMeasurement`].
pub struct FlattenedHttpMeasurementView {
    pub ttr: i64,
    pub method: Seq<char>,
    pub dst_addr: Seq<char>,
    pub src_addr: Seq<char>,
    pub rt: i64,
    pub res: u32,
    pub ver: Seq<char>,
    pub hsize: u32,
    pub bsize: u32,
    pub msm_id: u32,
    pub timestamp: usize,
    pub prb_id: u32,
}

impl View for FlattenedHttpMeasurement {
    type V = FlattenedHttpMeasurementView;

    open spec fn view(&self) -> FlattenedHttpMeasurementView {
        FlattenedHttpMeasurementView {
            ttr: self.ttr,
            method: self.method@,
            dst_addr: self.dst_addr@,
            src_addr: self.src_addr@,
            rt: self.rt,
            res: self.res,
            ver: self.ver@,
            hsize: self.hsize,
            bsize: self.bsize,
            msm_id: self.msm_id,
            timestamp: self.timestamp,
            prb_id: self.prb_id,
        }
    }
}

/// The text that stands for an absent source address or protocol version.
pub open spec fn timeout_text() -> Seq<char> {
    "timeout"@
}

/// The response code that stands for an absent one: 408, request timeout.
pub const TIMEOUT_STATUS: u32 = 408;

/// The value of an optional text, or the timeout text where it is absent.
pub open spec fn text_or_timeout(text: Option<Seq<char>>) -> Seq<char> {
    match text {
        Some(t) => t,
        None => timeout_text(),
    }
}

/// The flat row of an HTTP record with at least one result entry: the first
/// entry, with every absent part replaced by its sentinel.
pub open spec fn flattened_http(m: HttpMeasurementView) -> FlattenedHttpMeasurementView
    recommends
        m.result.len() > 0,
{
    let first = m.result[0];
    FlattenedHttpMeasurementView {
        ttr: m.ttr,
        method: first.method,
        dst_addr: first.dst_addr,
        src_addr: text_or_timeout(first.src_addr),
        rt: match first.rt {
            Some(rt) => rt,
            None => 0,
        },
        res: match first.res {
            Some(res) => res,
            None => TIMEOUT_STATUS,
        },
        ver: text_or_timeout(first.ver),
        hsize: match first.hsize {
            Some(hsize) => hsize,
            None => 0,
        },
        bsize: match first.bsize {
            Some(bsize) => bsize,
            None => 0,
        },
        msm_id: m.msm_id,
        timestamp: m.timestamp,
        prb_id: m.prb_id,
    }
}

/// A copy of an optional text, with `"timeout"` for an absent one.
fn owned_or_timeout(text: &Option<String>) -> (owned: String)
    ensures
        owned@ == text_or_timeout(text.deep_view()),
{
    match text {
        Some(t) => t.clone(),
        None => String::from_str("timeout"),
    }
}

impl FlattenedHttpMeasurement {
    /// Flattens an HTTP record into its row.
    ///
    /// A record of the platform carries exactly one result entry; one without
    /// any is outside this function's domain.
    pub fn from_http_measurement(measurement: &HttpMeasurement) -> (row: Self)
        requires
            measurement.result.len() > 0,
        ensures
            row@ == flattened_http(measurement@),
    {
        let http_result = &measurement.result[0];
        FlattenedHttpMeasurement {
            ttr: measurement.ttr,
            method: http_result.method.clone(),
            dst_addr: http_result.dst_addr.clone(),
            src_addr: owned_or_timeout(&http_result.src_addr),
            rt: match http_result.rt {
                Some(rt) => rt,
                None => 0,
            },
            res: match http_result.res {
                Some(res) => res,
                None => TIMEOUT_STATUS,
            },
            ver: owned_or_timeout(&http_result.ver),
            hsize: match http_result.hsize {
                Some(hsize) => hsize,
                None => 0,
            },
            bsize: match http_result.bsize {
                Some(bsize) => bsize,
                None => 0,
            },
            msm_id: measurement.msm_id,
            timestamp: measurement.timestamp,
            prb_id: measurement.prb_id,
        }
    }
}

/// A traceroute record: one result per hop on the path.
#[derive(Debug)]
pub struct TraceRouteMeasurement {
    pub endtime: usize,
    pub dst_addr: String,
    pub src_addr: String,
    pub proto: String,
    pub paris_id: u32,
    pub result: Vec<TraceRouteResult>,
    pub destination_ip_responded: bool,
    pub prb_id: u32,
    pub msm_id: u32,
    pub timestamp: usize,
}

/// The mathematical content of a [`TraceRouteMeasurement`].
pub struct TraceRouteMeasurementView {
    pub endtime: usize,
    pub dst_addr: Seq<char>,
    pub src_addr: Seq<char>,
    pub proto: Seq<char>,
    pub paris_id: u32,
    pub result: Seq<TraceRouteResultView>,
    pub destination_ip_responded: bool,
    pub prb_id: u32,
    pub msm_id: u32,
    pub timestamp: usize,
}

impl View for TraceRouteMeasurement {
    type V = TraceRouteMeasurementView;

    open spec fn view(&self) -> TraceRouteMeasurementView {
        TraceRouteMeasurementView {
            endtime: self.endtime,
            dst_addr: self.dst_addr@,
            src_addr: self.src_addr@,
            proto: self.proto@,
            paris_id: self.paris_id,
            result: self.result@.map_values(|r: TraceRouteResult| r@),
            destination_ip_responded: self.destination_ip_responded,
            prb_id: self.prb_id,
            msm_id: self.msm_id,
            timestamp: self.timestamp,
        }
    }
}

/// The packets sent at one hop and what came back for each.
#[derive(Debug)]
pub struct TraceRouteResult {
    pub hop: u32,
    pub result: Vec<HopResult>,
}

/// The mathematical content of a [`TraceRouteResult`].
pub struct TraceRouteResultView {
    pub hop: u32,
    pub result: Seq<HopResultView>,
}

impl View for TraceRouteResult {
    type V = TraceRouteResultView;

    open spec fn view(&self) -> TraceRouteResultView {
        TraceRouteResultView { hop: self.hop, result: self.result@.map_values(|r: HopResult| r@) }
    }
}

/// The answer to one packet at a hop. A packet that was not answered has no
/// round-trip time.
#[derive(Debug)]
pub struct HopResult {
    pub from: Option<String>,
    pub ttl: Option<u32>,
    pub size: Option<u32>,
    pub rtt: Option<i64>,
    pub x: Option<String>,
}

/// The mathematical content of a [`HopResult`].
pub struct HopResultView {
    pub from: Option<Seq<char>>,
    pub ttl: Option<u32>,
    pub size: Option<u32>,
    pub rtt: Option<i64>,
    pub x: Option<Seq<char>>,
}

impl View for HopResult {
    type V = HopResultView;

    open spec fn view(&self) -> HopResultView {
        HopResultView {
            from: self.from.deep_view(),
            ttl: self.ttl,
            size: self.size,
            rtt: self.rtt,
            x: self.x.deep_view(),
        }
    }
}

/// The flat row of one hop of a traceroute record.
#[derive(Debug)]
pub struct FlattenedTraceRouteMeasurement {
    pub msm_id: u32,
    pub src_addr: String,
    pub dst_addr: String,
    pub hop: u32,
    pub sent: usize,
    pub received: usize,
    pub min: i64,
    pub avg: i64,
    pub max: i64,
    pub from: String,
    pub timed_out: bool,
    pub timestamp: usize,
    pub prb_id: u32,
    pub endtime: usize,
    pub proto: String,
    pub paris_id: u32,
    pub destination_ip_responded: bool,
}

/// The mathematical content of a [`FlattenedTraceRouteMeasurement`].
pub struct FlattenedTraceRouteMeasurementView {
    pub msm_id: u32,
    pub src_addr: Seq<char>,
    pub dst_addr: Seq<char>,
    pub hop: u32,
    pub sent: nat,
    pub received: nat,
    pub min: int,
    pub avg: int,
    pub max: int,
    pub from: Seq<char>,
    pub timed_out: bool,
    pub timestamp: usize,
    pub prb_id: u32,
    pub endtime: usize,
    pub proto: Seq<char>,
    pub paris_id: u32,
    pub destination_ip_responded: bool,
}

impl View for FlattenedTraceRouteMeasurement {
    type V = FlattenedTraceRouteMeasurementView;

    open spec fn view(&self) -> FlattenedTraceRouteMeasurementView {
        FlattenedTraceRouteMeasurementView {
            msm_id: self.msm_id,
            src_addr: self.src_addr@,
            dst_addr: self.dst_addr@,
            hop: self.hop,
            sent: self.sent as nat,
            received: self.received as nat,
            min: self.min as int,
            avg: self.avg as int,
            max: self.max as int,
            from: self.from@,
            timed_out: self.timed_out,
            timestamp: self.timestamp,
            prb_id: self.prb_id,
            endtime: self.endtime,
            proto: self.proto@,
            paris_id: self.paris_id,
            destination_ip_responded: self.destination_ip_responded,
        }
    }
}

/// The round-trip times recorded at a hop, in the order of its answers.
/// Answers without one are left out.
pub open spec fn recorded_rtts(answers: Seq<HopResultView>) -> Seq<int>
    decreases answers.len(),
{
    if answers.len() == 0 {
        Seq::empty()
    } else {
        let earlier = recorded_rtts(answers.drop_last());
        match answers.last().rtt {
            Some(rtt) => earlier.push(rtt as int),
            None => earlier,
        }
    }
}

/// The address reported by the first answer that reports one.
pub open spec fn first_reported_from(answers: Seq<HopResultView>) -> Option<Seq<char>>
    decreases answers.len(),
{
    if answers.len() == 0 {
        None
    } else if answers[0].from is Some {
        answers[0].from
    } else {
        first_reported_from(answers.drop_first())
    }
}

/// The text that stands for a hop at which no answer reports an address.
pub open spec fn unknown_text() -> Seq<char> {
    "unknown"@
}

/// The row of one hop of a record.
///
/// `sent` counts the answers, `received` those with a round-trip time. With
/// none received the hop timed out and `min`, `max` and `avg` are zero;
/// otherwise they are the extrema and the mean of the recorded times. All
/// other fields but `hop` and `from` are those of the record.
pub open spec fn flattened_hop(
    m: TraceRouteMeasurementView,
    hop: TraceRouteResultView,
) -> FlattenedTraceRouteMeasurementView {
    let rtts = recorded_rtts(hop.result);
    FlattenedTraceRouteMeasurementView {
        msm_id: m.msm_id,
        src_addr: m.src_addr,
        dst_addr: m.dst_addr,
        hop: hop.hop,
        sent: hop.result.len(),
        received: rtts.len(),
        min: rtts.min(),
        avg: mean(rtts),
        max: rtts.max(),
        from: match first_reported_from(hop.result) {
            Some(from) => from,
            None => unknown_text(),
        },
        timed_out: rtts.len() == 0,
        timestamp: m.timestamp,
        prb_id: m.prb_id,
        endtime: m.endtime,
        proto: m.proto,
        paris_id: m.paris_id,
        destination_ip_responded: m.destination_ip_responded,
    }
}

/// The rows of a traceroute record: one per hop, in the order of the hops.
pub open spec fn flattened_traceroute(m: TraceRouteMeasurementView) -> Seq<
    FlattenedTraceRouteMeasurementView,
> {
    Seq::new(m.result.len(), |i: int| flattened_hop(m, m.result[i]))
}

/// The statistics of the round-trip times recorded at one hop.
struct HopStatistics {
    received: usize,
    min: i64,
    avg: i64,
    max: i64,
}

/// Every recorded round-trip time is within the range of `i64`, and there
/// are no more of them than answers.
proof fn lemma_recorded_rtts_bounded(answers: Seq<HopResultView>)
    ensures
        recorded_rtts(answers).len() <= answers.len(),
        forall|i: int|
            0 <= i < recorded_rtts(answers).len() ==> i64::MIN <= #[trigger] recorded_rtts(
                answers,
            )[i] && recorded_rtts(answers)[i] <= i64::MAX,
    decreases answers.len(),
{
    if answers.len() > 0 {
        lemma_recorded_rtts_bounded(answers.drop_last());
    }
}

/// Counts the recorded round-trip times of a hop and finds their extrema and
/// mean.
fn hop_statistics(answers: &Vec<HopResult>) -> (stats: HopStatistics)
    ensures
        stats.received == recorded_rtts(answers@.map_values(|r: HopResult| r@)).len(),
        stats.min == recorded_rtts(answers@.map_values(|r: HopResult| r@)).min(),
        stats.max == recorded_rtts(answers@.map_values(|r: HopResult| r@)).max(),
        stats.avg == mean(recorded_rtts(answers@.map_values(|r: HopResult| r@))),
{
    let ghost all = answers@.map_values(|r: HopResult| r@);
    let mut received: usize = 0;
    let mut sum: i128 = 0;
    let mut min: i64 = 0;
    let mut max: i64 = 0;
    let mut i: usize = 0;
    while i < answers.len()
        invariant
            0 <= i <= answers.len(),
            all == answers@.map_values(|r: HopResult| r@),
            received == recorded_rtts(all.take(i as int)).len(),
            received <= i,
            sum == total(recorded_rtts(all.take(i as int))),
            received * i64::MIN <= sum <= received * i64::MAX,
            received > 0 ==> is_least(min as int, recorded_rtts(all.take(i as int))),
            received > 0 ==> is_greatest(max as int, recorded_rtts(all.take(i as int))),
        decreases answers.len() - i,
    {
        let ghost before = recorded_rtts(all.take(i as int));
        proof {
            assert(all.take(i + 1).drop_last() =~= all.take(i as int));
            assert(all.take(i + 1).last() == answers@[i as int]@);
        }
        match answers[i].rtt {
            Some(rtt) => {
                let ghost after = before.push(rtt as int);
                proof {
                    assert(recorded_rtts(all.take(i + 1)) == after);
                    assert(after.drop_last() =~= before);
                    assert(after[received as int] == rtt);
                    assert((received + 1) * i64::MIN == received * i64::MIN + i64::MIN)
                        by (nonlinear_arith);
                    assert((received + 1) * i64::MAX == received * i64::MAX + i64::MAX)
                        by (nonlinear_arith);
                }
                if received == 0 {
                    min = rtt;
                    max = rtt;
                } else {
                    proof {
                        let at_min = choose|k: int| 0 <= k < before.len() && before[k] == min;
                        assert(after[at_min] == min);
                        let at_max = choose|k: int| 0 <= k < before.len() && before[k] == max;
                        assert(after[at_max] == max);
                    }
                    if rtt < min {
                        min = rtt;
                    }
                    if rtt > max {
                        max = rtt;
                    }
                }
                sum = sum + rtt as i128;
                received = received + 1;
            },
            None => {},
        }
        i = i + 1;
    }
    proof {
        assert(all.take(i as int) =~= all);
    }
    let ghost rtts = recorded_rtts(all);
    if received == 0 {
        HopStatistics { received, min: 0, avg: 0, max: 0 }
    } else {
        proof {
            lemma_least_is_min(min as int, rtts);
            lemma_greatest_is_max(max as int, rtts);
            lemma_recorded_rtts_bounded(all);
            lemma_total_bounds(rtts, min as int, max as int);
            let n = received as int;
            let s = sum as int;
            let lo = min as int;
            let hi = max as int;
            assert(lo <= s / n <= hi) by (nonlinear_arith)
                requires
                    n > 0,
                    n * lo <= s <= n * hi,
            ;
        }
        let avg = floor_div(sum, received as u64);
        HopStatistics { received, min, avg: avg as i64, max }
    }
}

/// A copy of the address reported by the first answer that reports one, or
/// `"unknown"`.
fn reported_from(answers: &Vec<HopResult>) -> (from: String)
    ensures
        from@ == match first_reported_from(answers@.map_values(|r: HopResult| r@)) {
            Some(from) => from,
            None => unknown_text(),
        },
{
    let ghost all = answers@.map_values(|r: HopResult| r@);
    let mut i: usize = 0;
    assert(all.skip(0) =~= all);
    while i < answers.len()
        invariant
            0 <= i <= answers.len(),
            all == answers@.map_values(|r: HopResult| r@),
            first_reported_from(all) == first_reported_from(all.skip(i as int)),
        decreases answers.len() - i,
    {
        proof {
            assert(all.skip(i as int)[0] == answers@[i as int]@);
            assert(all.skip(i as int).drop_first() =~= all.skip(i + 1));
        }
        match &answers[i].from {
            Some(from) => {
                return from.clone();
            },
            None => {},
        }
        i = i + 1;
    }
    String::from_str("unknown")
}

impl FlattenedTraceRouteMeasurement {
    /// Flattens a traceroute record into one row per hop, in the order of
    /// the hops.
    pub fn from_traceroute_measurement(traceroute_measurement: &TraceRouteMeasurement) -> (rows:
        Vec<Self>)
        ensures
            rows@.map_values(|r: FlattenedTraceRouteMeasurement| r@) == flattened_traceroute(
                traceroute_measurement@,
            ),
            rows.len() == traceroute_measurement.result.len(),
            forall|i: int|
                0 <= i < rows.len() ==> (#[trigger] rows[i])@ == flattened_hop(
                    traceroute_measurement@,
                    traceroute_measurement.result[i]@,
                ),
    {
        let mut rows: Vec<FlattenedTraceRouteMeasurement> = Vec::new();
        let mut i: usize = 0;
        while i < traceroute_measurement.result.len()
            invariant
                0 <= i <= traceroute_measurement.result.len(),
                rows.len() == i,
                forall|k: int|
                    0 <= k < i ==> (#[trigger] rows[k])@ == flattened_hop(
                        traceroute_measurement@,
                        traceroute_measurement.result[k]@,
                    ),
            decreases traceroute_measurement.result.len() - i,
        {
            let hop_result = &traceroute_measurement.result[i];
            let stats = hop_statistics(&hop_result.result);
            let from = reported_from(&hop_result.result);
            let row = FlattenedTraceRouteMeasurement {
                msm_id: traceroute_measurement.msm_id,
                src_addr: traceroute_measurement.src_addr.clone(),
                dst_addr: traceroute_measurement.dst_addr.clone(),
                hop: hop_result.hop,
                sent: hop_result.result.len(),
                received: stats.received,
                min: stats.min,
                avg: stats.avg,
                max: stats.max,
                from,
                timed_out: stats.received == 0,
                timestamp: traceroute_measurement.timestamp,
                prb_id: traceroute_measurement.prb_id,
                endtime: traceroute_measurement.endtime,
                proto: traceroute_measurement.proto.clone(),
                paris_id: traceroute_measurement.paris_id,
                destination_ip_responded: traceroute_measurement.destination_ip_responded,
            };
            assert(row@ == flattened_hop(traceroute_measurement@, hop_result@));
            rows.push(row);
            i = i + 1;
        }
        assert(rows@.map_values(|r: FlattenedTraceRouteMeasurement| r@) =~= flattened_traceroute(
            traceroute_measurement@,
        ));
        rows
    }
}

/// The number of answers of a hop that carry a round-trip time.
pub open spec fn answered(answers: Seq<HopResultView>) -> nat
    decreases answers.len(),
{
    if answers.len() == 0 {
        0
    } else {
        answered(answers.drop_last()) + if answers.last().rtt is Some {
            1nat
        } else {
            0nat
        }
    }
}

/// As many round-trip times are recorded as answers carry one, and never
/// more than there are answers.
pub proof fn lemma_recorded_count(answers: Seq<HopResultView>)
    ensures
        recorded_rtts(answers).len() == answered(answers),
        answered(answers) <= answers.len(),
        answered(answers) == 0 <==> forall|i: int|
            0 <= i < answers.len() ==> (#[trigger] answers[i]).rtt is None,
    decreases answers.len(),
{
    if answers.len() > 0 {
        let earlier = answers.drop_last();
        lemma_recorded_count(earlier);
        if answered(answers) == 0 {
            assert forall|i: int| 0 <= i < answers.len() implies (#[trigger] answers[i]).rtt
                is None by {
                if i < earlier.len() {
                    assert(earlier[i] == answers[i]);
                }
            }
        } else if answers.last().rtt is None {
            let i = choose|i: int| 0 <= i < earlier.len() && !((#[trigger] earlier[i]).rtt is None);
            assert(earlier[i] == answers[i]);
        }
    }
}

/// What the row of a hop says about its round-trip times.
///
/// `sent` counts the answers and `received` those that carry a round-trip
/// time. The hop timed out exactly when none does, and then the three
/// statistics are zero. Otherwise `min` is the least and `max` the greatest
/// recorded time, and `avg` is their sum divided by their number, rounded
/// down, which lies between the two.
pub proof fn lemma_hop_statistics(m: TraceRouteMeasurementView, hop: TraceRouteResultView)
    ensures
        ({
            let row = flattened_hop(m, hop);
            let rtts = recorded_rtts(hop.result);
            &&& row.sent == hop.result.len()
            &&& row.received == answered(hop.result)
            &&& row.received <= row.sent
            &&& row.timed_out <==> row.received == 0
            &&& row.received == 0 ==> row.min == 0 && row.max == 0 && row.avg == 0
            &&& row.received > 0 ==> is_least(row.min, rtts) && is_greatest(row.max, rtts)
                && row.avg == total(rtts) / (row.received as int) && row.min <= row.avg
                <= row.max
        }),
{
    let rtts = recorded_rtts(hop.result);
    lemma_recorded_count(hop.result);
    if rtts.len() > 0 {
        rtts.min_ensures();
        rtts.max_ensures();
        lemma_mean_between_extrema(rtts);
        let least = choose|i: int| 0 <= i < rtts.len() && rtts[i] == rtts.min();
        let greatest = choose|i: int| 0 <= i < rtts.len() && rtts[i] == rtts.max();
    }
}

/// What the row of an HTTP record holds for each part that its first result
/// entry lacks: the text `timeout` for the source address and for the
/// protocol version, the code 408, and zero for the time and the two sizes.
/// A part that is there is handed on as it is.
pub proof fn lemma_http_sentinels(m: HttpMeasurementView)
    requires
        m.result.len() > 0,
    ensures
        ({
            let entry = m.result[0];
            let row = flattened_http(m);
            &&& row.src_addr == if entry.src_addr is Some {
                entry.src_addr->0
            } else {
                "timeout"@
            }
            &&& row.ver == if entry.ver is Some {
                entry.ver->0
            } else {
                "timeout"@
            }
            &&& row.res == if entry.res is Some {
                entry.res->0
            } else {
                408u32
            }
            &&& row.rt == if entry.rt is Some {
                entry.rt->0
            } else {
                0i64
            }
            &&& row.hsize == if entry.hsize is Some {
                entry.hsize->0
            } else {
                0u32
            }
            &&& row.bsize == if entry.bsize is Some {
                entry.bsize->0
            } else {
                0u32
            }
        }),
{
}

} // verus!
