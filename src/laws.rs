//! Laws of the pipeline and of the logging decorator, proved from the contracts above.
use crate::cert::{
    handled, params_present, prepared, request_outcome, CertificateProperties, CertificateRequest,
};
use crate::error::{message_of, ErrorKind};
use crate::logging::{log_line_of, opt_view, or_dash, pid_field, RequestHead};
use crate::response::{is_failure, Response, ResponseBody};
use crate::text::{decimal, digit_char, is_blank, signed_decimal};
use crate::time::{rfc3339_instant, Timestamp};
use crate::validity::{seconds_between, validity_spec};
use vstd::prelude::*;

verus! {

/// A request without a module id or a generation id is answered 400 "Bad parameter", and
/// validation stops there: no properties are made for the store.
pub proof fn missing_params_rejected(
    name: Option<String>,
    genid: Option<String>,
    body: Result<CertificateRequest, String>,
    max: i64,
    now: Timestamp,
    r: Response,
    p: Result<CertificateProperties, ErrorKind>,
)
    requires
        !params_present(name, genid),
        handled(name, genid, body, max, now, r),
        prepared(name, genid, body, max, now, p),
    ensures
        is_failure(r, 400, "Bad parameter"@),
        p == Err::<CertificateProperties, ErrorKind>(ErrorKind::BadParam),
{
}

/// A body that did not decode is answered 400, with a message that starts with "Bad body".
pub proof fn bad_body_rejected(
    name: Option<String>,
    genid: Option<String>,
    cause: String,
    max: i64,
    now: Timestamp,
    r: Response,
)
    requires
        params_present(name, genid),
        handled(name, genid, Err(cause), max, now, r),
    ensures
        r.status == 400,
        r.body matches ResponseBody::Error(b) && exists|rest: Seq<char>|
            b.message@ == "Bad body"@ + rest,
{
    let m = message_of(ErrorKind::BadBody(cause));
    assert(m == "Bad body"@ + ("\n\tcaused by: "@ + cause@));
}

/// An expiration that is empty or only whitespace is answered 500 with the empty-argument
/// message.
pub proof fn blank_expiration_rejected(
    name: Option<String>,
    genid: Option<String>,
    req: CertificateRequest,
    max: i64,
    now: Timestamp,
    r: Response,
)
    requires
        params_present(name, genid),
        is_blank(req.expiration@),
        handled(name, genid, Ok(req), max, now, r),
    ensures
        is_failure(r, 500, "Argument is empty or only has whitespace"@),
{
}

/// An expiration that is not blank and does not parse as RFC 3339 is answered 500 with
/// "Invalid ISO 8601 date".
pub proof fn unparseable_expiration_rejected(
    name: Option<String>,
    genid: Option<String>,
    req: CertificateRequest,
    max: i64,
    now: Timestamp,
    r: Response,
)
    requires
        params_present(name, genid),
        !is_blank(req.expiration@),
        rfc3339_instant(req.expiration@) is None,
        handled(name, genid, Ok(req), max, now, r),
    ensures
        is_failure(r, 500, "Invalid ISO 8601 date"@),
{
}

/// An expiration a whole second or more before `now` is answered 500, with a message that
/// holds "out of range [0, <max>)".
pub proof fn past_expiration_rejected(
    name: Option<String>,
    genid: Option<String>,
    req: CertificateRequest,
    max: i64,
    now: Timestamp,
    secs: i64,
    nanos: u32,
    r: Response,
)
    requires
        params_present(name, genid),
        !is_blank(req.expiration@),
        rfc3339_instant(req.expiration@) == Some((secs, nanos)),
        seconds_between(now, Timestamp { secs, nanos }) < 0,
        handled(name, genid, Ok(req), max, now, r),
    ensures
        r.status == 500,
        r.body matches ResponseBody::Error(b) && b.message@ == "Argument "@ + (
        "out of range [0, "@ + signed_decimal(max as int) + ")"@),
{
    reveal_strlit("Argument out of range [");
    reveal_strlit("Argument ");
    reveal_strlit("out of range [0, ");
    reveal_strlit(", ");
    assert(decimal(0) == seq![digit_char(0)]);
    assert(signed_decimal(0) == seq!['0']);
    let m = message_of(ErrorKind::OutOfRange(0, max));
    assert(m =~= "Argument "@ + ("out of range [0, "@ + signed_decimal(max as int) + ")"@));
}

/// A common name that is empty or only whitespace, in a request whose expiration passes, is
/// answered 500 with the empty-argument message.
pub proof fn blank_common_name_rejected(
    name: Option<String>,
    genid: Option<String>,
    req: CertificateRequest,
    max: i64,
    now: Timestamp,
    r: Response,
)
    requires
        params_present(name, genid),
        is_blank(req.common_name@),
        validity_spec(req.expiration@, max, now) matches Ok(v) && v >= 0,
        handled(name, genid, Ok(req), max, now, r),
    ensures
        is_failure(r, 500, "Argument is empty or only has whitespace"@),
{
}

/// The validity that the store is asked for never exceeds the cap, and an expiration at or
/// beyond the cap is granted exactly the cap.
pub proof fn validity_capped(req: CertificateRequest, max: i64, now: Timestamp)
    requires
        request_outcome(req, max, now) is Ok,
    ensures
        request_outcome(req, max, now)->Ok_0 <= max,
        rfc3339_instant(req.expiration@) matches Some((secs, nanos)) && seconds_between(
            now,
            Timestamp { secs, nanos },
        ) >= max ==> request_outcome(req, max, now)->Ok_0 == max,
{
}

/// A request with no user-agent header and no process id is logged with `-` in both places.
pub proof fn placeholders_logged(
    label: Seq<char>,
    timestamp: Seq<char>,
    request: Seq<char>,
    status: Seq<char>,
    body_length: Seq<char>,
    head: RequestHead,
)
    requires
        head.user_agent is None,
        head.pid is None,
    ensures
        log_line_of(
            label,
            timestamp,
            request,
            status,
            body_length,
            or_dash(opt_view(head.user_agent)),
            pid_field(head.pid),
        ) == log_line_of(label, timestamp, request, status, body_length, "-"@, "-"@),
{
}

} // verus!
