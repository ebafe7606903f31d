//! The logging decorator: wraps a request handler and writes one access-log line per request.
use crate::text::{push_signed_decimal, signed_decimal};
use crate::time::{now, rfc3339_of};
use vstd::prelude::*;
use vstd::string::*;

verus! {

/// The process that sent a request, as the transport found it.
#[derive(Clone, Copy, Debug, PartialEq, Eq, Structural)]
pub enum Pid {
    Absent,
    Any,
    Value(i32),
}

/// What the decorator reads of a request before handing it on.
#[derive(Clone, Debug, PartialEq, Eq)]
pub struct RequestHead {
    pub method: String,
    pub path: String,
    pub query: Option<String>,
    /// The protocol version as text, such as `HTTP/1.1`.
    pub version: String,
    pub user_agent: Option<String>,
    pub pid: Option<Pid>,
}

pub open spec fn pid_text(p: Pid) -> Seq<char> {
    match p {
        Pid::Absent => "none"@,
        Pid::Any => "any"@,
        Pid::Value(v) => signed_decimal(v as int),
    }
}

/// A header value, or `-` where there is none.
pub open spec fn or_dash(v: Option<Seq<char>>) -> Seq<char> {
    match v {
        Some(s) => s,
        None => "-"@,
    }
}

pub open spec fn opt_view(v: Option<String>) -> Option<Seq<char>> {
    match v {
        Some(s) => Some(s@),
        None => None,
    }
}

pub open spec fn opt_pid_text(p: Option<Pid>) -> Option<Seq<char>> {
    match p {
        Some(q) => Some(pid_text(q)),
        None => None,
    }
}

/// The request line: method, path with its query string if any, and protocol version.
pub open spec fn request_line_of(h: RequestHead) -> Seq<char> {
    let uri = match h.query {
        Some(q) => h.path@ + "?"@ + q@,
        None => h.path@,
    };
    h.method@ + " "@ + uri + " "@ + h.version@
}

/// The access-log line.
pub open spec fn log_line_of(
    label: Seq<char>,
    timestamp: Seq<char>,
    request: Seq<char>,
    status: Seq<char>,
    body_length: Seq<char>,
    user_agent: Seq<char>,
    pid: Seq<char>,
) -> Seq<char> {
    "["@ + label + "] - - - ["@ + timestamp + "] \""@ + request + "\" "@ + status + " "@
        + body_length + " \"-\" \""@ + user_agent + "\" pid("@ + pid + ")"@
}

/// The text of a process id.
pub fn pid_to_string(p: Pid) -> (r: String)
    ensures
        r@ == pid_text(p),
{
    let mut s = String::new();
    match p {
        Pid::Absent => s.append("none"),
        Pid::Any => s.append("any"),
        Pid::Value(v) => push_signed_decimal(&mut s, v as i64),
    }
    s
}

/// The request line of `h`.
pub fn request_line(h: &RequestHead) -> (r: String)
    ensures
        r@ == request_line_of(*h),
{
    let mut s = String::from_str(h.method.as_str());
    s.append(" ");
    s.append(h.path.as_str());
    match &h.query {
        Some(q) => {
            s.append("?");
            s.append(q.as_str());
        },
        None => {},
    }
    s.append(" ");
    s.append(h.version.as_str());
    s
}

/// A header value, or `-` where there is none.
pub fn text_or_dash(v: &Option<String>) -> (r: String)
    ensures
        r@ == or_dash(opt_view(*v)),
{
    match v {
        Some(s) => s.clone(),
        None => String::from_str("-"),
    }
}

/// Wraps a handler `inner`; each response it gives is logged under `label`.
#[derive(Clone)]
pub struct LoggingService<T> {
    label: String,
    inner: T,
}

/// A response on its way back through the decorator, with what was read of its request.
pub struct ResponseFuture<T> {
    /// The inner handler's pending response.
    pub inner: T,
    pub label: String,
    /// The request line.
    pub request: String,
    /// The user-agent header, or `-`.
    pub user_agent: String,
    pub pid: Option<Pid>,
}

impl<T> LoggingService<T> {
    pub closed spec fn label_view(&self) -> Seq<char> {
        self.label@
    }

    pub closed spec fn inner_view(&self) -> T {
        self.inner
    }

    pub fn new(label: String, inner: T) -> (r: Self)
        ensures
            r.label_view() == label@,
            r.inner_view() == inner,
    {
        LoggingService { label, inner }
    }

    /// The wrapped handler, to hand the request on to.
    pub fn inner(&self) -> (r: &T)
        ensures
            *r == self.inner_view(),
    {
        &self.inner
    }

    /// The wrapped handler, to call with the request.
    pub fn inner_mut(&mut self) -> (r: &mut T)
        ensures
            *r == old(self).inner_view(),
            final(self).inner_view() == *final(r),
            final(self).label_view() == old(self).label_view(),
    {
        &mut self.inner
    }

    /// Takes the head of a request that has been handed on to the inner handler, and that
    /// handler's pending response, and pairs them for logging.
    pub fn wrap<F>(&self, head: &RequestHead, inner: F) -> (r: ResponseFuture<F>)
        ensures
            r.inner == inner,
            r.label@ == self.label_view(),
            r.request@ == request_line_of(*head),
            r.user_agent@ == or_dash(opt_view(head.user_agent)),
            r.pid == head.pid,
    {
        ResponseFuture {
            inner,
            label: self.label.clone(),
            request: request_line(head),
            user_agent: text_or_dash(&head.user_agent),
            pid: head.pid,
        }
    }
}

/// The process id as the log shows it, `-` where there is none.
pub open spec fn pid_field(p: Option<Pid>) -> Seq<char> {
    or_dash(opt_pid_text(p))
}

impl<T> ResponseFuture<T> {
    /// The log line for the response once it has come, written at `timestamp`, with the
    /// response's status text and its content-length header, if any. The response itself is
    /// handed back as it came.
    pub fn complete_at<R>(
        &self,
        response: R,
        status: &str,
        content_length: &Option<String>,
        timestamp: &str,
    ) -> (r: (R, String))
        ensures
            r.0 == response,
            r.1@ == log_line_of(
                self.label@,
                timestamp@,
                self.request@,
                status@,
                or_dash(opt_view(*content_length)),
                self.user_agent@,
                pid_field(self.pid),
            ),
    {
        let mut s = String::from_str("[");
        s.append(self.label.as_str());
        s.append("] - - - [");
        s.append(timestamp);
        s.append("] \"");
        s.append(self.request.as_str());
        s.append("\" ");
        s.append(status);
        s.append(" ");
        let length = text_or_dash(content_length);
        s.append(length.as_str());
        s.append(" \"-\" \"");
        s.append(self.user_agent.as_str());
        s.append("\" pid(");
        let pid = match self.pid {
            Some(p) => pid_to_string(p),
            None => String::from_str("-"),
        };
        s.append(pid.as_str());
        s.append(")");
        (response, s)
    }

    /// As `complete_at`, at the current time written as RFC 3339 text.
    pub fn complete<R>(&self, response: R, status: &str, content_length: &Option<String>) -> (r: (
        R,
        String,
    ))
        ensures
            r.0 == response,
            exists|timestamp: Seq<char>|
                r.1@ == log_line_of(
                    self.label@,
                    timestamp,
                    self.request@,
                    status@,
                    or_dash(opt_view(*content_length)),
                    self.user_agent@,
                    pid_field(self.pid),
                ),
    {
        let t = match rfc3339_of(now()) {
            Some(s) => s,
            None => String::from_str("-"),
        };
        self.complete_at(response, status, content_length, t.as_str())
    }
}

} // verus!
