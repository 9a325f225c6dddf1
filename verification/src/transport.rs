//! Client transports over HTTP: what they send (endpoints, headers,
//! envelopes) and how they read what comes back, for JSON-RPC and REST.

use vstd::prelude::*;
use vstd::string::*;
use crate::client::{ClientConfig, ClientEvent, TaskUpdateEvent, stand_in_task};
use crate::core_types::{TaskState, TaskStatus};
use crate::error::{A2AError, TaskNotFoundError};
use crate::json::{JsonData, JsonValue, Metadata};
use crate::models::{AgentCard, SendStreamingMessageResult, Task, TaskOrMessage};
use crate::text::{owned, str_eq, concat2, concat3, u64_to_decimal};

verus! {

/// The HTTP header that lists the activated extensions.
pub const HTTP_EXTENSION_HEADER: &'static str = "X-A2A-Extensions";

/// The header the JSON-RPC transport lists the activated extensions in.
pub const JSONRPC_EXTENSION_HEADER: &'static str = "A2A-Extensions";

#[verifier::external_type_specification]
#[verifier::external_body]
pub struct ExHttpClient(reqwest::Client);

/// Builds an HTTP client whose requests time out after `timeout`, with
/// `reqwest::ClientBuilder::build`; the error is the text of `reqwest`'s
/// error. Nothing is claimed of the outcome: it depends on the machine.
#[verifier::external_body]
fn build_http_client(timeout: std::time::Duration) -> (r: Result<reqwest::Client, String>) {
    match reqwest::Client::builder().timeout(timeout).build() {
        Ok(c) => Ok(c),
        Err(e) => Err(e.to_string()),
    }
}

/// The canonical text of an HTTP status as `reqwest::StatusCode` prints
/// it (the code, then its reason phrase when it has one).
pub uninterp spec fn status_text(code: u16) -> Seq<char>;

/// Prints a status with `reqwest::StatusCode`'s `Display` impl.
#[verifier::external_body]
fn display_status(code: u16) -> (r: String)
    requires
        100 <= code <= 999,
    ensures
        r@ == status_text(code),
{
    reqwest::StatusCode::from_u16(code).unwrap().to_string()
}

/// The span of `secs` seconds, as `std::time::Duration::from_secs` makes it.
pub uninterp spec fn duration_of_secs(secs: u64) -> std::time::Duration;

/// `std::time::Duration::from_secs`: the span of `secs` whole seconds.
#[verifier::external_body]
fn duration_from_secs(secs: u64) -> (r: std::time::Duration)
    ensures
        r == duration_of_secs(secs),
{
    std::time::Duration::from_secs(secs)
}

/// The request time limit of a transport whose configuration sets none:
/// thirty seconds.
pub open spec fn default_request_timeout() -> std::time::Duration {
    duration_of_secs(30)
}

/// Whether a transport must fetch the agent's card (and its extended card)
/// before it can report it: when it has no card, or the card declares an
/// authenticated extended card.
pub open spec fn spec_needs_extended_card(card: Option<AgentCard>) -> bool {
    match card {
        Some(c) => c.supports_authenticated_extended_card == Some(true),
        None => true,
    }
}

/// See `spec_needs_extended_card`.
pub fn needs_extended_card(card: &Option<AgentCard>) -> (r: bool)
    ensures
        r == spec_needs_extended_card(*card),
{
    match card {
        Some(c) => match c.supports_authenticated_extended_card {
            Some(b) => b,
            None => false,
        },
        None => true,
    }
}

/// Items joined with commas.
pub open spec fn join_commas(items: Seq<Seq<char>>) -> Seq<char>
    decreases items.len(),
{
    if items.len() == 0 {
        Seq::empty()
    } else if items.len() == 1 {
        items[0]
    } else {
        join_commas(items.drop_last()) + seq![','] + items.last()
    }
}

/// Joins items with commas.
pub fn join_with_commas(items: &Vec<String>) -> (r: String)
    ensures
        r@ == join_commas(items.deep_view()),
{
    let ghost d = items.deep_view();
    let mut out = String::new();
    let mut k: usize = 0;
    while k < items.len()
        invariant
            d == items.deep_view(),
            k <= items@.len(),
            out@ == join_commas(d.take(k as int)),
        decreases items@.len() - k,
    {
        proof {
            assert(d.take(k + 1).drop_last() =~= d.take(k as int));
            assert(d.take(k + 1).last() == items@[k as int]@);
        }
        if k == 0 {
            out.append(items[k].as_str());
            assert(d.take(1) =~= seq![items@[0]@]);
            assert(out@ =~= items@[0]@);
        } else {
            proof {
                reveal_strlit(",");
            }
            out.append(",");
            out.append(items[k].as_str());
        }
        k = k + 1;
    }
    assert(d.take(k as int) =~= d);
    out
}

/// The value of the extensions header: the call's extensions when given,
/// else the transport's, joined with commas; none when the list is empty.
pub fn extension_header_value(call: Option<&Vec<String>>, configured: &Vec<String>) -> (r: Option<String>)
    ensures
        ({
            let list = match call {
                Some(v) => v.deep_view(),
                None => configured.deep_view(),
            };
            &&& list.len() == 0 ==> r is None
            &&& list.len() > 0 ==> (r matches Some(h) && h@ == join_commas(list))
        }),
{
    let list = match call {
        Some(v) => v,
        None => configured,
    };
    if list.len() == 0 {
        None
    } else {
        Some(join_with_commas(list))
    }
}

/// The custom headers asked for in the HTTP arguments: the members of the
/// "headers" object whose values are strings, in order.
pub open spec fn custom_headers_of(headers: Option<JsonData>) -> Seq<(Seq<char>, Seq<char>)> {
    match headers {
        Some(JsonData::Object(members)) => string_members(members),
        _ => Seq::empty(),
    }
}

/// The members whose values are strings, with those strings.
pub open spec fn string_members(members: Seq<(Seq<char>, JsonData)>) -> Seq<(Seq<char>, Seq<char>)>
    decreases members.len(),
{
    if members.len() == 0 {
        Seq::empty()
    } else {
        let p = string_members(members.drop_last());
        match members.last().1 {
            JsonData::Str(v) => p.push((members.last().0, v)),
            _ => p,
        }
    }
}

/// The custom headers of the HTTP arguments (see `custom_headers_of`).
pub fn custom_headers(http_kwargs: &Metadata) -> (r: Vec<(String, String)>)
    ensures
        headers_view(r@) == custom_headers_of(http_kwargs@.get("headers"@)),
{
    proof {
        reveal_strlit("headers");
    }
    let mut out: Vec<(String, String)> = Vec::new();
    match http_kwargs.get("headers") {
        Some(JsonValue::Object(members)) => {
            let ghost md = crate::json::member_seq_data(members@);
            let mut k: usize = 0;
            while k < members.len()
                invariant
                    k <= members@.len(),
                    md == crate::json::member_seq_data(members@),
                    headers_view(out@) == string_members(md.take(k as int)),
                decreases members@.len() - k,
            {
                proof {
                    crate::json::lemma_member_seq_data_props(members@);
                    assert(md.take(k + 1).drop_last() =~= md.take(k as int));
                    assert(md.take(k + 1).last() == md[k as int]);
                }
                let ghost before = out@;
                match &members[k].1 {
                    JsonValue::String(v) => {
                        out.push((members[k].0.clone(), v.clone()));
                        assert(headers_view(out@) =~= headers_view(before).push((md[k as int].0, v@)));
                    },
                    _ => {},
                }
                k = k + 1;
            }
            proof {
                crate::json::lemma_member_seq_data_props(members@);
                assert(md.take(k as int) =~= md);
            }
        },
        _ => {},
    }
    out
}

/// The value of the extensions header: the call's extensions when given,
/// else the configured ones, joined with commas; none when the list is
/// empty.
pub open spec fn extension_value(call: Option<Seq<Seq<char>>>, configured: Seq<Seq<char>>) -> Option<Seq<char>> {
    let list = match call {
        Some(v) => v,
        None => configured,
    };
    if list.len() == 0 {
        None
    } else {
        Some(join_commas(list))
    }
}

/// The headers of a request, in the order they are set: JSON content and
/// accepted type, the extensions header (named `name`) when there is a
/// value for it, then the custom headers.
pub open spec fn header_list(
    name: Seq<char>,
    extension: Option<Seq<char>>,
    custom: Seq<(Seq<char>, Seq<char>)>,
) -> Seq<(Seq<char>, Seq<char>)> {
    seq![("Content-Type"@, "application/json"@), ("Accept"@, "application/json"@)] + match extension {
        Some(h) => seq![(name, h)],
        None => Seq::empty(),
    } + custom
}

/// The view of a header list.
pub open spec fn headers_view(v: Seq<(String, String)>) -> Seq<(Seq<char>, Seq<char>)> {
    v.map_values(|h: (String, String)| (h.0@, h.1@))
}

/// The headers of a request (see `header_list`; a later header of the same
/// name replaces an earlier one when they are sent).
pub fn request_headers(
    extension_header: &str,
    extensions: Option<&Vec<String>>,
    configured: &Vec<String>,
    http_kwargs: &Metadata,
) -> (r: Vec<(String, String)>)
    ensures
        headers_view(r@) == header_list(
            extension_header@,
            extension_value(
                match extensions {
                    Some(v) => Some(v.deep_view()),
                    None => None,
                },
                configured.deep_view(),
            ),
            custom_headers_of(http_kwargs@.get("headers"@)),
        ),
{
    let ghost call = match extensions {
        Some(v) => Some(v.deep_view()),
        None => None,
    };
    let mut out: Vec<(String, String)> = Vec::new();
    out.push((owned("Content-Type"), owned("application/json")));
    out.push((owned("Accept"), owned("application/json")));
    let ghost base = seq![("Content-Type"@, "application/json"@), ("Accept"@, "application/json"@)];
    assert(headers_view(out@) =~= base);
    let value = extension_header_value(extensions, configured);
    match value {
        Some(h) => {
            let ghost hv = h@;
            out.push((owned(extension_header), h));
            assert(headers_view(out@) =~= base + seq![(extension_header@, hv)]);
        },
        None => {},
    }
    let ghost head = headers_view(out@);
    assert(head == base + match extension_value(call, configured.deep_view()) {
        Some(h) => seq![(extension_header@, h)],
        None => Seq::<(Seq<char>, Seq<char>)>::empty(),
    });
    let custom = custom_headers(http_kwargs);
    let ghost cv = headers_view(custom@);
    let mut k: usize = 0;
    while k < custom.len()
        invariant
            k <= custom@.len(),
            cv == headers_view(custom@),
            headers_view(out@) == head + cv.take(k as int),
        decreases custom@.len() - k,
    {
        let ghost before = headers_view(out@);
        out.push((custom[k].0.clone(), custom[k].1.clone()));
        proof {
            assert(headers_view(out@) =~= before.push(cv[k as int]));
            assert(cv.take(k + 1) =~= cv.take(k as int).push(cv[k as int]));
            assert(head + cv.take(k + 1) =~= (head + cv.take(k as int)).push(cv[k as int]));
        }
        k = k + 1;
    }
    assert(cv.take(k as int) =~= cv);
    out
}

/// The request time limit, in seconds, asked for in the HTTP arguments.
pub fn timeout_secs(http_kwargs: &Metadata) -> (r: Option<u64>)
    ensures
        http_kwargs@.get("timeout"@) matches Some(JsonData::Number(crate::json::NumberData::PosInt(n))) ==> r == Some(n),
        !(http_kwargs@.get("timeout"@) matches Some(JsonData::Number(crate::json::NumberData::PosInt(_)))) ==> r is None,
{
    proof {
        reveal_strlit("timeout");
    }
    match http_kwargs.get("timeout") {
        Some(JsonValue::Number(crate::json::JsonNumber::PosInt(n))) => Some(*n),
        _ => None,
    }
}

/// Whether a response's content type announces an event stream.
pub fn is_event_stream(content_type: &str) -> (r: bool)
    ensures
        r == exists|i: int| 0 <= i <= content_type@.len() - 17 && #[trigger] content_type@.subrange(i, i + 17) == "text/event-stream"@,
{
    proof {
        reveal_strlit("text/event-stream");
    }
    let needle = "text/event-stream";
    let n = content_type.unicode_len();
    if n < 17 {
        return false;
    }
    let mut i: usize = 0;
    while i <= n - 17
        invariant
            n == content_type@.len(),
            n >= 17,
            needle@ == "text/event-stream"@,
            needle@.len() == 17,
            forall|j: int| 0 <= j < i ==> #[trigger] content_type@.subrange(j, j + 17) != "text/event-stream"@,
        decreases n - i,
    {
        if str_eq(content_type.substring_char(i, i + 17), needle) {
            return true;
        }
        i = i + 1;
    }
    false
}

/// The error for a JSON-RPC response with a failing HTTP status.
pub fn jsonrpc_status_error(status: u16) -> (r: A2AError)
    requires
        100 <= status <= 999,
    ensures
        r matches A2AError::Http { status: s, message: m } && s == status && m@ == "HTTP error: "@ + status_text(status),
{
    let text = display_status(status);
    A2AError::http_error(status, concat2("HTTP error: ", text.as_str()))
}

/// Whether `s` contains "/tasks/".
pub open spec fn mentions_tasks(s: Seq<char>) -> bool {
    exists|i: int| 0 <= i <= s.len() - 7 && #[trigger] s.subrange(i, i + 7) == "/tasks/"@
}

fn contains_tasks_segment(s: &str) -> (r: bool)
    ensures
        r == mentions_tasks(s@),
{
    proof {
        reveal_strlit("/tasks/");
    }
    let n = s.unicode_len();
    if n < 7 {
        return false;
    }
    let mut i: usize = 0;
    while i <= n - 7
        invariant
            n == s@.len(),
            n >= 7,
            "/tasks/"@.len() == 7,
            forall|j: int| 0 <= j < i ==> #[trigger] s@.subrange(j, j + 7) != "/tasks/"@,
        decreases n - i,
    {
        if str_eq(s.substring_char(i, i + 7), "/tasks/") {
            return true;
        }
        i = i + 1;
    }
    false
}

/// The error for an HTTP response with a failing status: the status and
/// the response text, "HTTP error {status}: {text}".
pub fn rest_http_error(status: u16, error_text: &str) -> (r: A2AError)
    ensures
        r matches A2AError::Http { status: s, message: m } && s == status
            && m@ == "HTTP error "@ + crate::text::decimal(status as nat) + ": "@ + error_text@,
{
    let code = u64_to_decimal(status as u64);
    let head = concat3("HTTP error ", code.as_str(), ": ");
    A2AError::http_error(status, concat2(head.as_str(), error_text))
}

/// The error for a REST response with a failing status: a 404 for a task
/// endpoint means the task was not found; otherwise as `rest_http_error`.
pub fn rest_status_error(status: u16, endpoint: &str, error_text: &str) -> (r: A2AError)
    ensures
        status == 404 && mentions_tasks(endpoint@) ==> (r matches A2AError::TaskNotFound(e)
            && e.message@ == TaskNotFoundError::default_message()),
        !(status == 404 && mentions_tasks(endpoint@)) ==> (r matches A2AError::Http { status: s, message: m }
            && s == status && m@ == "HTTP error "@ + crate::text::decimal(status as nat) + ": "@ + error_text@),
{
    if status == 404 && contains_tasks_segment(endpoint) {
        return A2AError::TaskNotFound(TaskNotFoundError::default());
    }
    rest_http_error(status, error_text)
}

/// The HTTP methods REST requests use.
pub enum HttpMethod {
    Get,
    Post,
    Put,
    Delete,
}

/// The method named `method`; any other name is refused with "Unsupported
/// HTTP method".
pub fn http_method(method: &str) -> (r: Result<HttpMethod, A2AError>)
    ensures
        method@ == "GET"@ ==> r matches Ok(HttpMethod::Get),
        method@ == "POST"@ ==> r matches Ok(HttpMethod::Post),
        method@ == "PUT"@ ==> r matches Ok(HttpMethod::Put),
        method@ == "DELETE"@ ==> r matches Ok(HttpMethod::Delete),
        !(method@ == "GET"@ || method@ == "POST"@ || method@ == "PUT"@ || method@ == "DELETE"@) ==> (r matches Err(
            A2AError::InvalidRequest(m),
        ) && m@ == "Unsupported HTTP method"@),
{
    proof {
        reveal_strlit("GET");
        reveal_strlit("POST");
        reveal_strlit("PUT");
        reveal_strlit("DELETE");
        assert("GET"@.len() == 3 && "POST"@.len() == 4 && "PUT"@.len() == 3 && "DELETE"@.len() == 6);
        assert("GET"@[0] != "PUT"@[0]);
    }
    if str_eq(method, "GET") {
        Ok(HttpMethod::Get)
    } else if str_eq(method, "POST") {
        Ok(HttpMethod::Post)
    } else if str_eq(method, "PUT") {
        Ok(HttpMethod::Put)
    } else if str_eq(method, "DELETE") {
        Ok(HttpMethod::Delete)
    } else {
        Err(A2AError::invalid_request("Unsupported HTTP method"))
    }
}

/// Whether requests with this method carry a JSON body.
pub fn sends_body(m: &HttpMethod) -> (r: bool)
    ensures
        r == (*m is Post || *m is Put),
{
    match m {
        HttpMethod::Post | HttpMethod::Put => true,
        _ => false,
    }
}

/// The text of an `i32` in decimal, with a minus sign when negative.
pub open spec fn signed_decimal(n: i32) -> Seq<char> {
    if n < 0 {
        seq!['-'] + crate::text::decimal((-(n as int)) as nat)
    } else {
        crate::text::decimal(n as nat)
    }
}

fn i32_to_decimal(n: i32) -> (r: String)
    ensures
        r@ == signed_decimal(n),
{
    if n < 0 {
        let m: u64 = (-(n as i64)) as u64;
        let digits = u64_to_decimal(m);
        proof {
            reveal_strlit("-");
        }
        concat2("-", digits.as_str())
    } else {
        u64_to_decimal(n as u64)
    }
}

/// The REST endpoint of a task: "/tasks/{id}", with "?history_length={n}"
/// when a history length is asked for.
pub fn task_endpoint(id: &str, history_length: Option<i32>) -> (r: String)
    ensures
        history_length is None ==> r@ == "/tasks/"@ + id@,
        history_length matches Some(n) ==> r@ == "/tasks/"@ + id@ + "?history_length="@ + signed_decimal(n),
{
    let base = concat2("/tasks/", id);
    match history_length {
        Some(n) => {
            let d = i32_to_decimal(n);
            concat3(base.as_str(), "?history_length=", d.as_str())
        },
        None => base,
    }
}

/// The REST endpoint that cancels a task.
pub fn cancel_endpoint(id: &str) -> (r: String)
    ensures
        r@ == "/tasks/"@ + id@ + "/cancel"@,
{
    concat3("/tasks/", id, "/cancel")
}

/// The REST endpoint that resubscribes to a task.
pub fn resubscribe_endpoint(id: &str) -> (r: String)
    ensures
        r@ == "/tasks/"@ + id@ + "/resubscribe"@,
{
    concat3("/tasks/", id, "/resubscribe")
}

/// The REST endpoint of a task's push notification configurations, or of
/// one of them.
pub fn push_config_endpoint(id: &str, config_id: Option<&str>) -> (r: String)
    ensures
        config_id is None ==> r@ == "/tasks/"@ + id@ + "/push_notifications"@,
        config_id matches Some(c) ==> r@ == "/tasks/"@ + id@ + "/push_notifications/"@ + c@,
{
    match config_id {
        Some(c) => {
            let base = concat3("/tasks/", id, "/push_notifications/");
            concat2(base.as_str(), c)
        },
        None => concat3("/tasks/", id, "/push_notifications"),
    }
}

/// The URL of an endpoint of an agent: the base URL followed by the
/// endpoint.
pub fn endpoint_url(base: &str, endpoint: &str) -> (r: String)
    ensures
        r@ == base@ + endpoint@,
{
    concat2(base, endpoint)
}

/// A streaming result as a client reads it.
pub fn convert_streaming_result(result: SendStreamingMessageResult) -> (r: TaskOrMessage)
    ensures
        result matches SendStreamingMessageResult::Task(t) ==> r == TaskOrMessage::Task(t),
        result matches SendStreamingMessageResult::Message(m) ==> r == TaskOrMessage::Message(m),
        result matches SendStreamingMessageResult::TaskStatusUpdateEvent(u) ==> r == TaskOrMessage::TaskUpdate(u),
        result matches SendStreamingMessageResult::TaskArtifactUpdateEvent(u) ==> r
            == TaskOrMessage::TaskArtifactUpdateEvent(u),
{
    match result {
        SendStreamingMessageResult::Task(t) => TaskOrMessage::Task(t),
        SendStreamingMessageResult::Message(m) => TaskOrMessage::Message(m),
        SendStreamingMessageResult::TaskStatusUpdateEvent(u) => TaskOrMessage::TaskUpdate(u),
        SendStreamingMessageResult::TaskArtifactUpdateEvent(u) => TaskOrMessage::TaskArtifactUpdateEvent(u),
    }
}

/// What the JSON-RPC transport yields when resubscribing: a task with no
/// update; updates are not supported yet and a message is unexpected.
pub fn jsonrpc_resubscribe_event(item: TaskOrMessage) -> (r: Result<ClientEvent, A2AError>)
    ensures
        item matches TaskOrMessage::Task(t) ==> r matches Ok((x, None)) && x == t,
        item is TaskUpdate ==> (r matches Err(A2AError::UnsupportedOperation(m))
            && m@ == "Task updates not fully implemented in resubscribe"@),
        item is TaskArtifactUpdateEvent ==> (r matches Err(A2AError::UnsupportedOperation(m))
            && m@ == "Task artifact updates not fully implemented in resubscribe"@),
        item is Message ==> (r matches Err(A2AError::InvalidAgentResponse(m))
            && m@ == "Unexpected message in resubscribe stream"@),
{
    match item {
        TaskOrMessage::Task(t) => Ok((t, None)),
        TaskOrMessage::TaskUpdate(_) => Err(A2AError::unsupported_operation("Task updates not fully implemented in resubscribe")),
        TaskOrMessage::TaskArtifactUpdateEvent(_) => Err(
            A2AError::unsupported_operation("Task artifact updates not fully implemented in resubscribe"),
        ),
        TaskOrMessage::Message(_) => Err(A2AError::invalid_response("Unexpected message in resubscribe stream")),
    }
}

/// What the REST transport yields when resubscribing: a task with no
/// update, or an update with a stand-in task for it (in the update's
/// status, or working for an artifact update); a message is unexpected.
pub fn rest_resubscribe_event(item: TaskOrMessage) -> (r: Result<ClientEvent, A2AError>)
    ensures
        item matches TaskOrMessage::Task(t) ==> r matches Ok((x, None)) && x == t,
        item matches TaskOrMessage::TaskUpdate(u) ==> r matches Ok((x, Some(TaskUpdateEvent::Status(y))))
            && y.deep_view() == u.deep_view() && stand_in_task(x.deep_view(), u.task_id@, u.context_id@)
            && x.status.deep_view() == u.status.deep_view(),
        item matches TaskOrMessage::TaskArtifactUpdateEvent(u) ==> r matches Ok((x, Some(TaskUpdateEvent::Artifact(y))))
            && y == u && stand_in_task(x.deep_view(), u.task_id@, u.context_id@)
            && x.status.state == TaskState::Working,
        item is Message ==> (r matches Err(A2AError::InvalidAgentResponse(m))
            && m@ == "Unexpected message in resubscribe stream"@),
{
    match item {
        TaskOrMessage::Task(t) => Ok((t, None)),
        TaskOrMessage::TaskUpdate(u) => {
            let task = Task::new(u.context_id.clone(), u.status.clone()).with_task_id(u.task_id.clone());
            Ok((task, Some(TaskUpdateEvent::Status(u))))
        },
        TaskOrMessage::TaskArtifactUpdateEvent(u) => {
            let status = TaskStatus::new(TaskState::Working);
            let task = Task::new(u.context_id.clone(), status).with_task_id(u.task_id.clone());
            Ok((task, Some(TaskUpdateEvent::Artifact(u))))
        },
        TaskOrMessage::Message(_) => Err(A2AError::invalid_response("Unexpected message in resubscribe stream")),
    }
}

/// The state every HTTP transport keeps: the agent's URL, the HTTP client
/// (with the time limit it was built with, when the transport built it),
/// the agent's card if known, the request middleware, the activated
/// extensions, and whether the card must be fetched.
pub struct HttpTransport<I> {
    url: String,
    client: reqwest::Client,
    timeout: Ghost<Option<std::time::Duration>>,
    agent_card: Option<AgentCard>,
    interceptors: Vec<I>,
    extensions: Vec<String>,
    needs_extended_card: bool,
}

impl<I> HttpTransport<I> {
    /// The agent's URL.
    pub closed spec fn spec_url(&self) -> Seq<char> {
        self.url@
    }

    /// The agent's card, if known.
    pub closed spec fn spec_card(&self) -> Option<AgentCard> {
        self.agent_card
    }

    /// The activated extensions.
    pub closed spec fn spec_extensions(&self) -> Seq<Seq<char>> {
        self.extensions.deep_view()
    }

    /// Whether the card must be fetched.
    pub closed spec fn spec_needs_extended(&self) -> bool {
        self.needs_extended_card
    }

    /// The request middleware.
    pub closed spec fn spec_interceptors(&self) -> Seq<I> {
        self.interceptors@
    }

    /// The HTTP client the transport sends with.
    pub closed spec fn spec_client(&self) -> reqwest::Client {
        self.client
    }

    /// The request time limit the transport built its HTTP client with;
    /// none when the client was handed to it.
    pub closed spec fn spec_timeout(&self) -> Option<std::time::Duration> {
        self.timeout@
    }

    /// A transport for the agent at `url`, using `client`.
    pub fn with_client(url: String, client: reqwest::Client, agent_card: Option<AgentCard>) -> (r: Self)
        ensures
            r.spec_url() == url@,
            r.spec_card() == agent_card,
            r.spec_extensions().len() == 0,
            r.spec_interceptors().len() == 0,
            r.spec_needs_extended() == spec_needs_extended_card(agent_card),
            r.spec_client() == client,
            r.spec_timeout() is None,
    {
        let needs = needs_extended_card(&agent_card);
        let r = HttpTransport {
            url,
            client,
            timeout: Ghost(None),
            agent_card,
            interceptors: Vec::new(),
            extensions: Vec::new(),
            needs_extended_card: needs,
        };
        assert(r.extensions.deep_view().len() == 0);
        r
    }

    /// A transport for the agent at `url` with a thirty-second time limit;
    /// refused when the HTTP client cannot be built.
    pub fn new(url: String, agent_card: Option<AgentCard>) -> (r: Result<Self, A2AError>)
        ensures
            r matches Ok(t) ==> t.spec_url() == url@ && t.spec_card() == agent_card && t.spec_extensions().len() == 0
                && t.spec_needs_extended() == spec_needs_extended_card(agent_card)
                && t.spec_timeout() == Some(default_request_timeout()),
            r matches Err(e) ==> e matches A2AError::Internal(m) && "Failed to create HTTP client: "@.is_prefix_of(m@),
    {
        let timeout = duration_from_secs(30);
        match build_http_client(timeout) {
            Ok(client) => {
                let t = Self::with_client(url, client, agent_card);
                Ok(HttpTransport { timeout: Ghost(Some(timeout)), ..t })
            },
            Err(e) => Err(A2AError::transport_error(concat2("Failed to create HTTP client: ", e.as_str()))),
        }
    }

    /// A transport for the agent at `url` with the configuration's time
    /// limit (thirty seconds when it sets none) and extensions.
    pub fn new_with_config(url: String, agent_card: Option<AgentCard>, config: ClientConfig) -> (r: Result<
        Self,
        A2AError,
    >)
        ensures
            r matches Ok(t) ==> t.spec_url() == url@ && t.spec_card() == agent_card && t.spec_extensions()
                == config.extensions.deep_view() && t.spec_needs_extended() == spec_needs_extended_card(agent_card)
                && t.spec_timeout() == Some(match config.timeout {
                    Some(d) => d,
                    None => default_request_timeout(),
                }),
            r matches Err(e) ==> e matches A2AError::Internal(m) && "Failed to create HTTP client: "@.is_prefix_of(m@),
    {
        let timeout = match config.timeout {
            Some(t) => t,
            None => duration_from_secs(30),
        };
        match build_http_client(timeout) {
            Ok(client) => {
                let t = Self::with_client(url, client, agent_card);
                let t = HttpTransport { timeout: Ghost(Some(timeout)), ..t };
                Ok(t.with_extensions(config.extensions))
            },
            Err(e) => Err(A2AError::transport_error(concat2("Failed to create HTTP client: ", e.as_str()))),
        }
    }

    /// This transport with the given middleware.
    pub fn with_interceptors(self, interceptors: Vec<I>) -> (r: Self)
        ensures
            r.spec_interceptors() == interceptors@,
            r.spec_url() == self.spec_url(),
            r.spec_card() == self.spec_card(),
            r.spec_extensions() == self.spec_extensions(),
            r.spec_needs_extended() == self.spec_needs_extended(),
            r.spec_client() == self.spec_client(),
            r.spec_timeout() == self.spec_timeout(),
    {
        HttpTransport { interceptors, ..self }
    }

    /// This transport with the given extensions activated.
    pub fn with_extensions(self, extensions: Vec<String>) -> (r: Self)
        ensures
            r.spec_extensions() == extensions.deep_view(),
            r.spec_interceptors() == self.spec_interceptors(),
            r.spec_url() == self.spec_url(),
            r.spec_card() == self.spec_card(),
            r.spec_needs_extended() == self.spec_needs_extended(),
            r.spec_client() == self.spec_client(),
            r.spec_timeout() == self.spec_timeout(),
    {
        HttpTransport { extensions, ..self }
    }

    /// The agent's URL.
    pub fn url(&self) -> (r: &str)
        ensures
            r@ == self.spec_url(),
    {
        self.url.as_str()
    }

    /// The HTTP client.
    pub fn client(&self) -> (r: &reqwest::Client)
        ensures
            *r == self.spec_client(),
    {
        &self.client
    }

    /// The agent's card, if known.
    pub fn agent_card(&self) -> (r: &Option<AgentCard>)
        ensures
            *r == self.spec_card(),
    {
        &self.agent_card
    }

    /// The request middleware.
    pub fn interceptors(&self) -> (r: &Vec<I>)
        ensures
            r@ == self.spec_interceptors(),
    {
        &self.interceptors
    }

    /// The card that request middleware is shown. Without a card the
    /// transport cannot run its middleware, and a request is refused with
    /// "No agent card available for interceptors".
    pub fn interceptor_card(&self) -> (r: Result<&AgentCard, A2AError>)
        ensures
            self.spec_card() matches Some(c) ==> (r matches Ok(x) && *x == c),
            self.spec_card() is None ==> (r matches Err(A2AError::InvalidRequest(m))
                && m@ == "No agent card available for interceptors"@),
    {
        match &self.agent_card {
            Some(card) => Ok(card),
            None => Err(A2AError::invalid_request("No agent card available for interceptors")),
        }
    }

    /// The activated extensions.
    pub fn extensions(&self) -> (r: &Vec<String>)
        ensures
            r.deep_view() == self.spec_extensions(),
    {
        &self.extensions
    }

    /// The card to report without asking the agent: the known card, unless
    /// it must be fetched.
    pub fn known_card(&self) -> (r: Option<&AgentCard>)
        ensures
            (self.spec_card() is Some && !self.spec_needs_extended()) ==> r == Some(&self.spec_card()->0),
            !(self.spec_card() is Some && !self.spec_needs_extended()) ==> r is None,
    {
        match &self.agent_card {
            Some(card) => if !self.needs_extended_card {
                Some(card)
            } else {
                None
            },
            None => None,
        }
    }

    /// Whether, after fetching the agent's public card, the extended card
    /// must be fetched too.
    pub fn wants_extended_card(&self, fetched: &AgentCard) -> (r: bool)
        ensures
            r == (self.spec_needs_extended() && fetched.supports_authenticated_extended_card == Some(true)),
    {
        self.needs_extended_card && match fetched.supports_authenticated_extended_card {
            Some(b) => b,
            None => false,
        }
    }

    /// The headers of a request (see `request_headers`), with the given
    /// name for the extensions header.
    pub fn headers(&self, extension_header: &str, extensions: Option<&Vec<String>>, http_kwargs: &Metadata) -> (r: Vec<
        (String, String),
    >)
        ensures
            headers_view(r@) == header_list(
                extension_header@,
                extension_value(
                    match extensions {
                        Some(v) => Some(v.deep_view()),
                        None => None,
                    },
                    self.spec_extensions(),
                ),
                custom_headers_of(http_kwargs@.get("headers"@)),
            ),
    {
        request_headers(extension_header, extensions, &self.extensions, http_kwargs)
    }
}

/// The JSON-RPC transport.
pub type JsonRpcTransport<I> = HttpTransport<I>;

/// The REST transport.
pub type RestTransport<I> = HttpTransport<I>;


proof fn lemma_string_member_kept(members: Seq<(Seq<char>, JsonData)>, i: int)
    requires
        0 <= i < members.len(),
        members[i].1 is Str,
    ensures
        string_members(members).contains((members[i].0, members[i].1->Str_0)),
    decreases members.len(),
{
    let p = string_members(members.drop_last());
    if i == members.len() - 1 {
        let x = (members[i].0, members[i].1->Str_0);
        assert(string_members(members) == p.push(x));
        assert(p.push(x)[p.len() as int] == x);
    } else {
        assert(members.drop_last()[i] == members[i]);
        lemma_string_member_kept(members.drop_last(), i);
        let x = (members[i].0, members[i].1->Str_0);
        let j = choose|j: int| 0 <= j < p.len() && p[j] == x;
        match members.last().1 {
            JsonData::Str(v) => {
                assert(string_members(members) == p.push((members.last().0, v)));
                assert(p.push((members.last().0, v))[j] == x);
            },
            _ => {},
        }
    }
}

/// A request carries every custom header asked for: each member of the
/// HTTP arguments' "headers" object whose value is a string is sent as a
/// header of that name and value, after the content-type and accept
/// headers.
pub proof fn law_custom_headers_sent(
    name: Seq<char>,
    extension: Option<Seq<char>>,
    members: Seq<(Seq<char>, JsonData)>,
    i: int,
)
    requires
        0 <= i < members.len(),
        members[i].1 is Str,
    ensures
        ({
            let hs = header_list(name, extension, custom_headers_of(Some(JsonData::Object(members))));
            &&& hs[0] == ("Content-Type"@, "application/json"@)
            &&& hs[1] == ("Accept"@, "application/json"@)
            &&& exists|j: int| 2 <= j < hs.len() && hs[j] == (members[i].0, members[i].1->Str_0)
        }),
{
    lemma_string_member_kept(members, i);
    let c = custom_headers_of(Some(JsonData::Object(members)));
    let x = (members[i].0, members[i].1->Str_0);
    let k = choose|k: int| 0 <= k < c.len() && c[k] == x;
    let head = seq![("Content-Type"@, "application/json"@), ("Accept"@, "application/json"@)] + match extension {
        Some(h) => seq![(name, h)],
        None => Seq::empty(),
    };
    let hs = header_list(name, extension, c);
    assert(hs == head + c);
    assert(hs[head.len() + k] == x);
}

} // verus!
