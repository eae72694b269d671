//! Asking the platform for the results of a measurement, and gathering the
//! answers of many such requests.

use vstd::prelude::*;
use vstd::string::*;

verus! {

/// The address at which the platform hands out the results of a
/// measurement.
pub fn results_url(measurement_id: &str) -> (url: String)
    ensures
        url@ == "https://atlas.ripe.net/api/v2/measurements/"@ + measurement_id@ + "/results/"@,
{
    let mut url = String::from_str("https://atlas.ripe.net/api/v2/measurements/");
    url.append(measurement_id);
    url.append("/results/");
    url
}

/// What a batch of requests brought: the records of the requests that
/// succeeded, and the failures of the others.
pub struct Gathered<T, E> {
    pub records: Vec<T>,
    pub failures: Vec<E>,
}

/// The records of the successful answers, answer after answer.
pub open spec fn gathered_records<T, E>(answers: Seq<Result<Vec<T>, E>>) -> Seq<T>
    decreases answers.len(),
{
    if answers.len() == 0 {
        Seq::empty()
    } else {
        let earlier = gathered_records(answers.drop_last());
        match answers.last() {
            Ok(records) => earlier + records@,
            Err(_) => earlier,
        }
    }
}

/// The failures among the answers, in their order.
pub open spec fn gathered_failures<T, E>(answers: Seq<Result<Vec<T>, E>>) -> Seq<E>
    decreases answers.len(),
{
    if answers.len() == 0 {
        Seq::empty()
    } else {
        let earlier = gathered_failures(answers.drop_last());
        match answers.last() {
            Ok(_) => earlier,
            Err(failure) => earlier.push(failure),
        }
    }
}

/// Gathers the answers of a batch of requests. A request that failed does
/// not keep the records of the others back.
pub fn gather<T, E>(answers: Vec<Result<Vec<T>, E>>) -> (gathered: Gathered<T, E>)
    ensures
        gathered.records@ == gathered_records(answers@),
        gathered.failures@ == gathered_failures(answers@),
{
    let ghost all = answers@;
    let mut records: Vec<T> = Vec::new();
    let mut failures: Vec<E> = Vec::new();
    for answer in it: answers
        invariant
            it.seq() == all,
            records@ == gathered_records(all.take(it.index() as int)),
            failures@ == gathered_failures(all.take(it.index() as int)),
    {
        proof {
            assert(all.take(it.index() + 1).drop_last() =~= all.take(it.index() as int));
        }
        match answer {
            Ok(more) => {
                let mut more = more;
                records.append(&mut more);
            },
            Err(failure) => {
                failures.push(failure);
            },
        }
    }
    assert(all.take(all.len() as int) =~= all);
    Gathered { records, failures }
}

} // verus!
