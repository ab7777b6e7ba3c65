//! Decisions of the HTTP application that do not depend on the web framework:
//! which origins may call it, and what its health check answers.
use vstd::prelude::*;

use crate::net::{header_char_ok, header_value_valid};
use crate::text::{append, owned, str_eq};

verus! {

/// The origins allowed to call the API.
#[derive(Debug, PartialEq, Eq)]
pub enum CorsOrigins {
    /// Any origin (`*` is configured).
    Any,
    /// Exactly these origins.
    List(Vec<String>),
}

/// The text is a valid header value.
pub open spec fn header_text_ok(s: Seq<char>) -> bool {
    forall|i: int| 0 <= i < s.len() ==> header_char_ok(#[trigger] s[i])
}

/// `origins[k]` is the first configured origin that is not a valid header
/// value.
pub open spec fn first_invalid_at(origins: Seq<String>, k: int) -> bool {
    &&& 0 <= k < origins.len()
    &&& !header_text_ok(origins[k]@)
    &&& forall|j: int| 0 <= j < k ==> header_text_ok(#[trigger] origins[j]@)
}

/// The origins allowed to call the API: any origin when `*` is configured;
/// else the configured ones, which must each be a valid header value (the
/// first that is not is reported).
pub fn cors_origins(origins: &Vec<String>) -> (r: Result<CorsOrigins, String>)
    ensures
        (exists|i: int| 0 <= i < origins@.len() && #[trigger] origins@[i]@ == "*"@) ==> r
            == Ok::<CorsOrigins, String>(CorsOrigins::Any),
        !(exists|i: int| 0 <= i < origins@.len() && #[trigger] origins@[i]@ == "*"@) ==> (forall|
            k: int,
        | first_invalid_at(origins@, k) ==> (r matches Err(e) && e@ == "invalid ALLOWED_ORIGINS value `"@
            + origins@[k]@ + "`"@)),
        !(exists|i: int| 0 <= i < origins@.len() && #[trigger] origins@[i]@ == "*"@) && (forall|
            k: int,
        | 0 <= k < origins@.len() ==> header_text_ok(#[trigger] origins@[k]@)) ==> (r matches Ok(
            CorsOrigins::List(list),
        ) && list@ == origins@),
{
    let n = origins.len();
    for i in 0..n
        invariant
            n == origins@.len(),
            forall|j: int| 0 <= j < i ==> (#[trigger] origins@[j])@ != "*"@,
    {
        if str_eq(origins[i].as_str(), "*") {
            return Ok(CorsOrigins::Any);
        }
    }
    let mut list: Vec<String> = Vec::new();
    for i in 0..n
        invariant
            n == origins@.len(),
            forall|j: int| 0 <= j < i ==> header_text_ok(#[trigger] origins@[j]@),
            forall|j: int| 0 <= j < n ==> (#[trigger] origins@[j])@ != "*"@,
            list@ == origins@.take(i as int),
    {
        if !header_value_valid(origins[i].as_str()) {
            proof {
                assert(first_invalid_at(origins@, i as int));
                assert forall|k: int| first_invalid_at(origins@, k) implies k == i by {
                    if k < i {
                        assert(header_text_ok(origins@[k]@));
                    } else if k > i {
                        assert(header_text_ok(origins@[i as int]@));
                    }
                }
            }
            let mut message = owned("invalid ALLOWED_ORIGINS value `");
            append(&mut message, origins[i].as_str());
            append(&mut message, "`");
            return Err(message);
        }
        list.push(origins[i].clone());
        assert(list@ =~= origins@.take(i + 1));
    }
    assert(origins@.take(n as int) =~= origins@);
    Ok(CorsOrigins::List(list))
}

/// What the health check answers.
#[derive(Debug, PartialEq, Eq)]
pub struct HealthReport {
    pub status_code: u16,
    pub status: String,
}

/// The health check's answer: `200 ok` when the database answers, else
/// `503 degraded`.
pub fn health_report(database_ok: bool) -> (r: HealthReport)
    ensures
        database_ok ==> r.status_code == 200 && r.status@ == "ok"@,
        !database_ok ==> r.status_code == 503 && r.status@ == "degraded"@,
{
    if database_ok {
        HealthReport { status_code: 200, status: owned("ok") }
    } else {
        HealthReport { status_code: 503, status: owned("degraded") }
    }
}

} // verus!
