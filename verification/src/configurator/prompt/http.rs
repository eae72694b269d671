//! The questions for an HTTP measurement.

use crate::common::configuration::http::HttpVersion;
use vstd::prelude::*;

verus! {

/// Accepts a port: any but zero.
pub fn validate_port(port: &u16) -> (outcome: Result<(), &'static str>)
    ensures
        outcome is Ok <==> 1 <= *port <= 65535,
        outcome matches Err(text) ==> text@ == "Port must be between 1 and 65535"@,
{
    if *port >= 1 {
        Ok(())
    } else {
        Err("Port must be between 1 and 65535")
    }
}

/// The request methods that are offered, the default first.
pub fn offered_methods() -> (offered: &'static [&'static str])
    ensures
        offered@.len() == 4,
        offered@[0]@ == "GET"@,
        offered@[1]@ == "POST"@,
        offered@[2]@ == "PUT"@,
        offered@[3]@ == "DELETE"@,
{
    let offered: &'static [&'static str] = &["GET", "POST", "PUT", "DELETE"];
    offered
}

/// The protocol versions that are offered, the default first: 1.1 and 2.0.
pub fn offered_versions() -> (offered: &'static [HttpVersion])
    ensures
        offered@ == seq![HttpVersion { major: 1, minor: 1 }, HttpVersion { major: 2, minor: 0 }],
{
    let offered: &'static [HttpVersion] = &[
        HttpVersion { major: 1, minor: 1 },
        HttpVersion { major: 2, minor: 0 },
    ];
    assert(offered@ =~= seq![
        HttpVersion { major: 1, minor: 1 },
        HttpVersion { major: 2, minor: 0 },
    ]);
    offered
}

} // verus!
