//! The requests sent to the Grist document and the reading of its replies.

use vstd::prelude::*;
use vstd::string::StringExecFns;
use crate::clock::{
    day_end, day_representable, day_start, lemma_clock_days_representable, now_utc_seconds,
    utc_day_bounds, EARLIEST_INSTANT, LATEST_INSTANT,
};
use crate::config::RemoteConfig;
use crate::text::{decimal, i64_to_decimal};

verus! {

#[verifier::external_type_specification]
#[verifier::external_body]
pub struct ExJsonValue(serde_json::Value);

/// Whether serde_json accepts `text` as one JSON document: well-formed, and
/// nested no deeper than serde_json's recursion limit.
pub uninterp spec fn json_valid(text: Seq<char>) -> bool;

/// The text that reqwest shows for the HTTP status `code` ("404 Not Found").
pub uninterp spec fn status_display(code: u16) -> Seq<char>;

/// Relies on serde_json::from_str::<Value>: it succeeds exactly on the texts
/// serde_json accepts as one JSON document (well-formed and within its
/// nesting limit), and the outcome depends on the text alone. The error
/// is handed on as serde_json's message.
#[verifier::external_body]
fn parse_json(text: &str) -> (r: Result<serde_json::Value, String>)
    ensures
        r is Ok <==> json_valid(text@),
{
    match serde_json::from_str::<serde_json::Value>(text) {
        Ok(v) => Ok(v),
        Err(e) => Err(e.to_string()),
    }
}

/// Relies on reqwest::StatusCode::from_u16, which accepts exactly the codes
/// 100 to 999, and on the status code's `Display`, which depends on the code
/// alone.
#[verifier::external_body]
fn status_text(code: u16) -> (r: Option<String>)
    ensures
        r is Some <==> 100 <= code < 1000,
        r is Some ==> r->Some_0@ == status_display(code),
{
    match reqwest::StatusCode::from_u16(code) {
        Ok(s) => Some(s.to_string()),
        Err(_) => None,
    }
}

/// Read-only query selecting the workers who are currently active.
pub const WORKERS_QUERY: &'static str = "SELECT%20*%20FROM%20Workers%20%20WHERE%20start_date%20%3E%20end_date%20OR%20end_date%20IS%20NULL";

/// Start of the query selecting the time-clock scans of a range of instants.
pub const HOURS_QUERY_HEAD: &'static str = "SELECT%20*%20FROM%20TimeclockHours%20WHERE%20scan_datetime%20%3E%3D%20";

/// Text between the two ends of the range in the time-clock query.
pub const HOURS_QUERY_MIDDLE: &'static str = "%20AND%20scan_datetime%20%3C%3D%20";

/// Reply of a successful insertion.
pub const RECORD_ADDED: &'static str = "Record successfully added to Grist.";

#[derive(PartialEq, Eq, Structural, Clone, Copy, Debug)]
pub enum HttpMethod {
    Get,
    Post,
}

/// One HTTP request: method, URL, value of the `Authorization` header and,
/// for a write, the JSON body.
pub struct HttpRequest {
    pub method: HttpMethod,
    pub url: String,
    pub authorization: String,
    pub body: Option<String>,
}

/// What the server answered: the status code, and the body's text or the
/// reason it could not be read.
pub struct HttpResponse {
    pub status: u16,
    pub body: Result<String, String>,
}

pub struct RequestView {
    pub method: HttpMethod,
    pub url: Seq<char>,
    pub authorization: Seq<char>,
    pub body: Option<Seq<char>>,
}

impl View for HttpRequest {
    type V = RequestView;

    open spec fn view(&self) -> RequestView {
        RequestView {
            method: self.method,
            url: self.url@,
            authorization: self.authorization@,
            body: match self.body {
                Some(b) => Some(b@),
                None => None,
            },
        }
    }
}

/// `Authorization` header value carrying the API key.
pub open spec fn bearer(c: RemoteConfig) -> Seq<char> {
    "Bearer "@ + c.api_key@
}

/// URL of the document's SQL endpoint, up to the query text.
pub open spec fn sql_endpoint(c: RemoteConfig) -> Seq<char> {
    c.base_url@ + "/api/docs/"@ + c.document_id@ + "/sql?q="@
}

/// URL of the time-clock table's records.
pub open spec fn records_endpoint(c: RemoteConfig) -> Seq<char> {
    c.base_url@ + "/api/docs/"@ + c.document_id@ + "/tables/TimeclockHours/records"@
}

/// Query text selecting the scans whose instant lies in `[start, end]`.
pub open spec fn hours_query(start: int, end: int) -> Seq<char> {
    HOURS_QUERY_HEAD@ + decimal(start) + HOURS_QUERY_MIDDLE@ + decimal(end)
}

/// Envelope that inserts one record whose fields are the JSON text `fields`.
pub open spec fn record_envelope(fields: Seq<char>) -> Seq<char> {
    "{\"records\":[{\"fields\":"@ + fields + "}]}"@
}

pub open spec fn workers_request_view(c: RemoteConfig) -> RequestView {
    RequestView {
        method: HttpMethod::Get,
        url: sql_endpoint(c) + WORKERS_QUERY@,
        authorization: bearer(c),
        body: None,
    }
}

pub open spec fn hours_request_view(c: RemoteConfig, start: int, end: int) -> RequestView {
    RequestView {
        method: HttpMethod::Get,
        url: sql_endpoint(c) + hours_query(start, end),
        authorization: bearer(c),
        body: None,
    }
}

pub open spec fn scan_record_request_view(c: RemoteConfig, fields: Seq<char>) -> RequestView {
    RequestView {
        method: HttpMethod::Post,
        url: records_endpoint(c),
        authorization: bearer(c),
        body: Some(record_envelope(fields)),
    }
}

/// An HTTP status in the 2xx range.
pub open spec fn is_success(status: u16) -> bool {
    200 <= status < 300
}

/// How a status is shown in an error: reqwest's text for it, or its number
/// where reqwest has no status code for it.
pub open spec fn status_shown(status: u16) -> Seq<char> {
    if 100 <= status < 1000 {
        status_display(status)
    } else {
        decimal(status as int)
    }
}

/// Error of a read whose reply had a non-success status.
pub open spec fn fetch_failure(status: u16) -> Seq<char> {
    "Failed to fetch data: "@ + status_shown(status)
}

/// Prefix of the error of a read whose reply body is not JSON.
pub open spec fn decode_failure_prefix() -> Seq<char> {
    "error decoding response body: "@
}

/// Outcome of a read, as far as it is fixed by the reply alone.
pub open spec fn read_outcome_holds(
    reply: Result<HttpResponse, String>,
    r: Result<serde_json::Value, String>,
) -> bool {
    match reply {
        Err(e) => r is Err && r->Err_0@ == e@,
        Ok(resp) => if !is_success(resp.status) {
            r is Err && r->Err_0@ == fetch_failure(resp.status)
        } else {
            match resp.body {
                Err(e) => r is Err && r->Err_0@ == e@,
                Ok(text) => (r is Ok <==> json_valid(text@)) && (r is Err ==> exists|m: Seq<char>|
                    r->Err_0@ == decode_failure_prefix() + m),
            }
        },
    }
}

/// Outcome of an insertion.
pub open spec fn write_outcome_view(reply: Result<HttpResponse, String>) -> Result<
    Seq<char>,
    Seq<char>,
> {
    match reply {
        Err(e) => Err("Request failed: "@ + e@),
        Ok(resp) => if is_success(resp.status) {
            Ok(RECORD_ADDED@)
        } else {
            match resp.body {
                Ok(text) => Err("Grist API returned error: "@ + text@),
                Err(_) => Err("Grist API returned error: Unknown error"@),
            }
        },
    }
}

fn authorization(config: &RemoteConfig) -> (r: String)
    ensures
        r@ == bearer(*config),
{
    String::from_str("Bearer ").concat(config.api_key.as_str())
}

fn sql_url(config: &RemoteConfig) -> (r: String)
    ensures
        r@ == sql_endpoint(*config),
{
    config.base_url.clone().concat("/api/docs/").concat(config.document_id.as_str()).concat(
        "/sql?q=",
    )
}

/// The request that lists the currently active workers.
pub fn workers_request(config: &RemoteConfig) -> (r: HttpRequest)
    ensures
        r@ == workers_request_view(*config),
{
    let url = sql_url(config).concat(WORKERS_QUERY);
    let r = HttpRequest {
        method: HttpMethod::Get,
        url,
        authorization: authorization(config),
        body: None,
    };
    assert(r@.url == workers_request_view(*config).url);
    r
}

/// The request that lists the scans whose instant lies in `[start, end]`.
pub fn hours_request(config: &RemoteConfig, start: i64, end: i64) -> (r: HttpRequest)
    ensures
        r@ == hours_request_view(*config, start as int, end as int),
{
    let start_text = i64_to_decimal(start);
    let end_text = i64_to_decimal(end);
    let url = sql_url(config).concat(HOURS_QUERY_HEAD).concat(start_text.as_str()).concat(
        HOURS_QUERY_MIDDLE,
    ).concat(end_text.as_str());
    let r = HttpRequest {
        method: HttpMethod::Get,
        url,
        authorization: authorization(config),
        body: None,
    };
    assert(r@.url =~= hours_request_view(*config, start as int, end as int).url);
    r
}

/// The request that lists the scans of the UTC day that holds the instant
/// `now`, or `None` when that day's bounds do not fit in an `i64`.
pub fn hours_request_at(config: &RemoteConfig, now: i64) -> (r: Option<HttpRequest>)
    ensures
        r is Some <==> day_representable(now as int),
        r is Some ==> r->Some_0@ == hours_request_view(
            *config,
            day_start(now as int),
            day_end(now as int),
        ),
{
    match utc_day_bounds(now) {
        Some((start, end)) => Some(hours_request(config, start, end)),
        None => None,
    }
}

/// The request that lists today's scans, today being the current UTC day.
pub fn todays_hours_request(config: &RemoteConfig) -> (r: HttpRequest)
    ensures
        exists|t: i64|
            EARLIEST_INSTANT <= t <= LATEST_INSTANT && r@ == hours_request_view(
                *config,
                day_start(t as int),
                day_end(t as int),
            ),
{
    let now = now_utc_seconds();
    proof {
        lemma_clock_days_representable(now as int);
    }
    match hours_request_at(config, now) {
        Some(req) => req,
        None => unreached(),
    }
}

/// The request that appends one record to the time-clock table, `fields`
/// being the record's fields as a JSON object. Text that is not JSON is
/// refused with serde_json's message.
pub fn scan_record_request(config: &RemoteConfig, fields: &str) -> (r: Result<HttpRequest, String>)
    ensures
        r is Ok <==> json_valid(fields@),
        r is Ok ==> r->Ok_0@ == scan_record_request_view(*config, fields@),
{
    match parse_json(fields) {
        Err(e) => Err(e),
        Ok(_) => Ok(record_request(config, fields)),
    }
}

/// The request that appends one record whose fields are the JSON text
/// `fields`, wrapped in the envelope the records endpoint expects.
pub fn record_request(config: &RemoteConfig, fields: &str) -> (r: HttpRequest)
    ensures
        r@ == scan_record_request_view(*config, fields@),
{
    let url = config.base_url.clone().concat("/api/docs/").concat(config.document_id.as_str()).concat(
        "/tables/TimeclockHours/records",
    );
    let body = String::from_str("{\"records\":[{\"fields\":").concat(fields).concat("}]}");
    let r = HttpRequest {
        method: HttpMethod::Post,
        url,
        authorization: authorization(config),
        body: Some(body),
    };
    assert(r@ == scan_record_request_view(*config, fields@));
    r
}

/// Whether an HTTP status is in the 2xx range.
pub fn status_is_success(status: u16) -> (r: bool)
    ensures
        r == is_success(status),
{
    200 <= status && status < 300
}

fn show_status(status: u16) -> (r: String)
    ensures
        r@ == status_shown(status),
{
    match status_text(status) {
        Some(t) => t,
        None => i64_to_decimal(status as i64),
    }
}

/// The value a read yields for the server's reply: its body decoded as
/// JSON, or an error naming the failure.
pub fn read_outcome(reply: Result<HttpResponse, String>) -> (r: Result<serde_json::Value, String>)
    ensures
        read_outcome_holds(reply, r),
{
    match reply {
        Err(e) => Err(e),
        Ok(resp) => {
            if !status_is_success(resp.status) {
                Err(String::from_str("Failed to fetch data: ").concat(show_status(resp.status).as_str()))
            } else {
                match resp.body {
                    Err(e) => Err(e),
                    Ok(text) => decode_outcome(parse_json(text.as_str())),
                }
            }
        },
    }
}

/// The value a read yields for the outcome of decoding its body: the value,
/// or the decoder's message after a note that decoding failed.
pub fn decode_outcome(parsed: Result<serde_json::Value, String>) -> (r: Result<
    serde_json::Value,
    String,
>)
    ensures
        r is Ok <==> parsed is Ok,
        r is Ok ==> r == parsed,
        r is Err ==> r->Err_0@ == decode_failure_prefix() + parsed->Err_0@,
{
    match parsed {
        Ok(v) => Ok(v),
        Err(e) => Err(String::from_str("error decoding response body: ").concat(e.as_str())),
    }
}

/// The message an insertion yields for the server's reply.
pub fn write_outcome(reply: Result<HttpResponse, String>) -> (r: Result<String, String>)
    ensures
        r is Ok <==> write_outcome_view(reply) is Ok,
        r is Ok ==> r->Ok_0@ == write_outcome_view(reply)->Ok_0,
        r is Err ==> r->Err_0@ == write_outcome_view(reply)->Err_0,
{
    match reply {
        Err(e) => Err(String::from_str("Request failed: ").concat(e.as_str())),
        Ok(resp) => {
            if status_is_success(resp.status) {
                Ok(String::from_str(RECORD_ADDED))
            } else {
                match resp.body {
                    Ok(text) => Err(String::from_str("Grist API returned error: ").concat(text.as_str())),
                    Err(_) => Err(String::from_str("Grist API returned error: Unknown error")),
                }
            }
        },
    }
}

/// The workers query is one fixed text: whatever the settings, the request's
/// URL is the document's SQL endpoint followed by that same query, which
/// keeps the rows whose start date is after their end date or whose end date
/// is empty.
pub proof fn lemma_workers_query_fixed(c1: RemoteConfig, c2: RemoteConfig)
    ensures
        workers_request_view(c1).url.subrange(
            sql_endpoint(c1).len() as int,
            workers_request_view(c1).url.len() as int,
        ) == workers_request_view(c2).url.subrange(
            sql_endpoint(c2).len() as int,
            workers_request_view(c2).url.len() as int,
        ),
        workers_request_view(c1).url.subrange(
            sql_endpoint(c1).len() as int,
            workers_request_view(c1).url.len() as int,
        ) == WORKERS_QUERY@,
        workers_request_view(c1).method == HttpMethod::Get,
        workers_request_view(c1).body is None,
{
    assert(workers_request_view(c1).url.subrange(
        sql_endpoint(c1).len() as int,
        workers_request_view(c1).url.len() as int,
    ) =~= WORKERS_QUERY@);
    assert(workers_request_view(c2).url.subrange(
        sql_endpoint(c2).len() as int,
        workers_request_view(c2).url.len() as int,
    ) =~= WORKERS_QUERY@);
}

/// A refused insertion reports the server's body text: when the reply has a
/// non-success status and a readable body, the error ends with that body.
pub proof fn lemma_rejection_reports_body(status: u16, text: String)
    requires
        !is_success(status),
    ensures
        ({
            let out = write_outcome_view(Ok(HttpResponse { status, body: Ok(text) }));
            &&& out is Err
            &&& out->Err_0.len() >= text@.len()
            &&& out->Err_0.subrange(out->Err_0.len() - text@.len(), out->Err_0.len() as int)
                == text@
        }),
{
    let out = write_outcome_view(Ok(HttpResponse { status, body: Ok(text) }));
    assert(out->Err_0.subrange(out->Err_0.len() - text@.len(), out->Err_0.len() as int) =~= text@);
}

} // verus!
