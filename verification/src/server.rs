//! The JSON-RPC server: its configuration, the routes it serves, and the
//! checks it makes on a request before handing it on.

use vstd::prelude::*;
use vstd::string::*;
use crate::error::{INVALID_REQUEST, PARSE_ERROR};
use crate::handlers::JSONRPCHandler;
use crate::json::{JsonData, JsonValue};
use crate::jsonrpc::{JSONRPCError, JSONRPCId, id_from_value, id_of, IdData};
use crate::models::AgentCard;
use crate::text::{owned, str_eq, concat2};

verus! {

/// The well-known path of the agent card.
pub const AGENT_CARD_WELL_KNOWN_PATH: &'static str = "/.well-known/agent-card.json";
/// The path of the agent card in earlier versions of the protocol.
pub const PREV_AGENT_CARD_WELL_KNOWN_PATH: &'static str = "/.well-known/agent.json";
/// The path of the authenticated extended agent card.
pub const EXTENDED_AGENT_CARD_PATH: &'static str = "/agent/authenticatedExtendedCard";
/// The default path of the JSON-RPC endpoint.
pub const DEFAULT_RPC_URL: &'static str = "/";
/// The default limit on the size of a request body, ten mebibytes.
pub const DEFAULT_MAX_CONTENT_LENGTH: usize = 10485760;

/// How the server is set up.
pub struct ServerConfig {
    /// The address to listen on, as "host:port".
    pub bind_addr: String,
    /// The path of the agent card.
    pub agent_card_path: String,
    /// The path of the JSON-RPC endpoint.
    pub rpc_path: String,
    /// The path of the authenticated extended agent card.
    pub extended_agent_card_path: String,
    /// The largest request body accepted, in bytes, when there is a limit.
    pub max_content_length: Option<usize>,
    /// Whether cross-origin requests are allowed.
    pub enable_cors: bool,
}

/// The default configuration: listening on 127.0.0.1:8080, the card at
/// the well-known path, JSON-RPC at "/", the extended card at its path, a
/// body limit of ten mebibytes, and cross-origin requests allowed.
pub open spec fn is_default_config(c: ServerConfig) -> bool {
    &&& c.bind_addr@ == "127.0.0.1:8080"@
    &&& c.agent_card_path@ == AGENT_CARD_WELL_KNOWN_PATH@
    &&& c.rpc_path@ == DEFAULT_RPC_URL@
    &&& c.extended_agent_card_path@ == EXTENDED_AGENT_CARD_PATH@
    &&& c.max_content_length == Some(DEFAULT_MAX_CONTENT_LENGTH)
    &&& c.enable_cors
}

impl Default for ServerConfig {
    fn default() -> (r: Self)
        ensures
            is_default_config(r),
    {
        ServerConfig {
            bind_addr: owned("127.0.0.1:8080"),
            agent_card_path: owned(AGENT_CARD_WELL_KNOWN_PATH),
            rpc_path: owned(DEFAULT_RPC_URL),
            extended_agent_card_path: owned(EXTENDED_AGENT_CARD_PATH),
            max_content_length: Some(DEFAULT_MAX_CONTENT_LENGTH),
            enable_cors: true,
        }
    }
}

/// What a route serves.
pub enum RouteKind {
    /// The agent card, on GET.
    AgentCard,
    /// JSON-RPC requests, on POST.
    JsonRpc,
    /// The authenticated extended agent card, on GET.
    ExtendedCard,
}

/// The routes of a server, in order: the agent card and the JSON-RPC
/// endpoint; the extended card when the card declares one; and the
/// previous well-known card path when the card is at the well-known path.
pub open spec fn route_plan(card: AgentCard, config: ServerConfig) -> Seq<(Seq<char>, RouteKind)> {
    let base = seq![(config.agent_card_path@, RouteKind::AgentCard), (config.rpc_path@, RouteKind::JsonRpc)];
    let with_ext = if card.supports_authenticated_extended_card == Some(true) {
        base.push((config.extended_agent_card_path@, RouteKind::ExtendedCard))
    } else {
        base
    };
    if config.agent_card_path@ == AGENT_CARD_WELL_KNOWN_PATH@ {
        with_ext.push((PREV_AGENT_CARD_WELL_KNOWN_PATH@, RouteKind::AgentCard))
    } else {
        with_ext
    }
}

/// The view of a route list.
pub open spec fn routes_view(v: Seq<(String, RouteKind)>) -> Seq<(Seq<char>, RouteKind)> {
    v.map_values(|e: (String, RouteKind)| (e.0@, e.1))
}

/// The answer to a request for the extended card: the card, or a 404 with
/// a reason.
pub open spec fn extended_card_outcome(card: AgentCard, extended: Option<AgentCard>) -> Result<AgentCard, Seq<char>> {
    if card.supports_authenticated_extended_card != Some(true) {
        Err("Extended agent card not supported or not enabled."@)
    } else {
        match extended {
            Some(c) => Ok(c),
            None => Err("Authenticated extended agent card is supported but not configured on the server."@),
        }
    }
}

/// A2A server over JSON-RPC: the agent's card (and extended card), the
/// front end for the request handler `H`, the builder `B` of call
/// contexts, and the configuration.
pub struct A2AServer<H, B> {
    extended_agent_card: Option<AgentCard>,
    handler: JSONRPCHandler<H>,
    context_builder: B,
    config: ServerConfig,
}

impl<H, B> A2AServer<H, B> {
    /// The agent's card.
    pub closed spec fn spec_card(&self) -> AgentCard {
        self.handler.spec_card()
    }

    /// The extended card, if configured.
    pub closed spec fn spec_extended(&self) -> Option<AgentCard> {
        self.extended_agent_card
    }

    /// The configuration.
    pub closed spec fn spec_config(&self) -> ServerConfig {
        self.config
    }

    /// The request handler.
    pub closed spec fn spec_handler(&self) -> H {
        self.handler.spec_handler()
    }

    /// The builder of call contexts.
    pub closed spec fn spec_context_builder(&self) -> B {
        self.context_builder
    }

    /// A server for the agent of `agent_card` with the default
    /// configuration and no extended card.
    pub fn new(agent_card: AgentCard, request_handler: H, context_builder: B) -> (r: Self)
        ensures
            r.spec_card() == agent_card,
            r.spec_extended() is None,
            is_default_config(r.spec_config()),
            r.spec_handler() == request_handler,
            r.spec_context_builder() == context_builder,
    {
        A2AServer {
            extended_agent_card: None,
            handler: JSONRPCHandler::new(agent_card, request_handler),
            context_builder,
            config: ServerConfig::default(),
        }
    }

    /// This server with the given extended card.
    pub fn with_extended_agent_card(self, card: AgentCard) -> (r: Self)
        ensures
            r.spec_extended() == Some(card),
            r.spec_card() == self.spec_card(),
            r.spec_config() == self.spec_config(),
    {
        A2AServer { extended_agent_card: Some(card), ..self }
    }

    /// This server with the given configuration.
    pub fn with_config(self, config: ServerConfig) -> (r: Self)
        ensures
            r.spec_config() == config,
            r.spec_card() == self.spec_card(),
            r.spec_extended() == self.spec_extended(),
    {
        A2AServer { config, ..self }
    }

    /// The JSON-RPC front end.
    pub fn handler(&self) -> (r: &JSONRPCHandler<H>)
        ensures
            r.spec_card() == self.spec_card(),
            r.spec_handler() == self.spec_handler(),
    {
        &self.handler
    }

    /// The builder of call contexts.
    pub fn context_builder(&self) -> (r: &B)
        ensures
            *r == self.spec_context_builder(),
    {
        &self.context_builder
    }

    /// The configuration.
    pub fn config(&self) -> (r: &ServerConfig)
        ensures
            *r == self.spec_config(),
    {
        &self.config
    }

    /// The agent's card.
    pub fn agent_card(&self) -> (r: &AgentCard)
        ensures
            *r == self.spec_card(),
    {
        self.handler.agent_card()
    }

    /// The routes the server serves (see `route_plan`).
    pub fn routes(&self) -> (r: Vec<(String, RouteKind)>)
        ensures
            routes_view(r@) == route_plan(self.spec_card(), self.spec_config()),
    {
        let mut v: Vec<(String, RouteKind)> = Vec::new();
        v.push((self.config.agent_card_path.clone(), RouteKind::AgentCard));
        v.push((self.config.rpc_path.clone(), RouteKind::JsonRpc));
        let ghost base = seq![(self.config.agent_card_path@, RouteKind::AgentCard), (self.config.rpc_path@, RouteKind::JsonRpc)];
        assert(routes_view(v@) =~= base);
        let ext = match self.handler.agent_card().supports_authenticated_extended_card {
            Some(b) => b,
            None => false,
        };
        if ext {
            let ghost before = routes_view(v@);
            v.push((self.config.extended_agent_card_path.clone(), RouteKind::ExtendedCard));
            assert(routes_view(v@) =~= before.push((self.config.extended_agent_card_path@, RouteKind::ExtendedCard)));
        }
        if str_eq(self.config.agent_card_path.as_str(), AGENT_CARD_WELL_KNOWN_PATH) {
            let ghost before = routes_view(v@);
            v.push((owned(PREV_AGENT_CARD_WELL_KNOWN_PATH), RouteKind::AgentCard));
            assert(routes_view(v@) =~= before.push((PREV_AGENT_CARD_WELL_KNOWN_PATH@, RouteKind::AgentCard)));
        }
        v
    }

    /// The answer to a request for the extended card (see
    /// `extended_card_outcome`).
    pub fn extended_card(&self) -> (r: Result<&AgentCard, &'static str>)
        ensures
            extended_card_outcome(self.spec_card(), self.spec_extended()) matches Ok(c) ==> r matches Ok(x) && *x == c,
            extended_card_outcome(self.spec_card(), self.spec_extended()) matches Err(m) ==> r matches Err(x) && x@ == m,
    {
        let supported = match self.handler.agent_card().supports_authenticated_extended_card {
            Some(b) => b,
            None => false,
        };
        if !supported {
            return Err("Extended agent card not supported or not enabled.");
        }
        match &self.extended_agent_card {
            Some(c) => Ok(c),
            None => Err("Authenticated extended agent card is supported but not configured on the server."),
        }
    }
}

/// Builds a server step by step.
pub struct A2AServerBuilder<H, B> {
    agent_card: Option<AgentCard>,
    request_handler: Option<H>,
    context_builder: Option<B>,
    extended_agent_card: Option<AgentCard>,
    config: ServerConfig,
}

impl<H, B> A2AServerBuilder<H, B> {
    /// The agent card given, if any.
    pub closed spec fn spec_card(&self) -> Option<AgentCard> {
        self.agent_card
    }

    /// The request handler given, if any.
    pub closed spec fn spec_handler(&self) -> Option<H> {
        self.request_handler
    }

    /// The builder of call contexts given, if any.
    pub closed spec fn spec_context_builder(&self) -> Option<B> {
        self.context_builder
    }

    /// The extended agent card given, if any.
    pub closed spec fn spec_extended(&self) -> Option<AgentCard> {
        self.extended_agent_card
    }

    /// The configuration.
    pub closed spec fn spec_config(&self) -> ServerConfig {
        self.config
    }

    /// A builder with nothing given and the default configuration.
    pub fn new() -> (r: Self)
        ensures
            r.spec_card() is None,
            r.spec_handler() is None,
            r.spec_context_builder() is None,
            r.spec_extended() is None,
            is_default_config(r.spec_config()),
    {
        A2AServerBuilder {
            agent_card: None,
            request_handler: None,
            context_builder: None,
            extended_agent_card: None,
            config: ServerConfig::default(),
        }
    }

    /// Gives the agent card.
    pub fn with_agent_card(self, card: AgentCard) -> (r: Self)
        ensures
            r.spec_card() == Some(card),
            r.spec_handler() == self.spec_handler(),
            r.spec_context_builder() == self.spec_context_builder(),
            r.spec_extended() == self.spec_extended(),
            r.spec_config() == self.spec_config(),
    {
        A2AServerBuilder { agent_card: Some(card), ..self }
    }

    /// Gives the request handler.
    pub fn with_request_handler(self, handler: H) -> (r: Self)
        ensures
            r.spec_card() == self.spec_card(),
            r.spec_handler() == Some(handler),
            r.spec_context_builder() == self.spec_context_builder(),
            r.spec_extended() == self.spec_extended(),
            r.spec_config() == self.spec_config(),
    {
        A2AServerBuilder { request_handler: Some(handler), ..self }
    }

    /// Gives the builder of call contexts.
    pub fn with_context_builder(self, builder: B) -> (r: Self)
        ensures
            r.spec_card() == self.spec_card(),
            r.spec_handler() == self.spec_handler(),
            r.spec_context_builder() == Some(builder),
            r.spec_extended() == self.spec_extended(),
            r.spec_config() == self.spec_config(),
    {
        A2AServerBuilder { context_builder: Some(builder), ..self }
    }

    /// Gives the extended agent card.
    pub fn with_extended_agent_card(self, card: AgentCard) -> (r: Self)
        ensures
            r.spec_card() == self.spec_card(),
            r.spec_handler() == self.spec_handler(),
            r.spec_context_builder() == self.spec_context_builder(),
            r.spec_extended() == Some(card),
            r.spec_config() == self.spec_config(),
    {
        A2AServerBuilder { extended_agent_card: Some(card), ..self }
    }

    /// Gives the configuration.
    pub fn with_config(self, config: ServerConfig) -> (r: Self)
        ensures
            r.spec_card() == self.spec_card(),
            r.spec_handler() == self.spec_handler(),
            r.spec_context_builder() == self.spec_context_builder(),
            r.spec_extended() == self.spec_extended(),
            r.spec_config() == config,
    {
        A2AServerBuilder { config, ..self }
    }

    /// The server made of what was given; refused, in this order, when the
    /// card, the request handler or the context builder is missing.
    pub fn build(self) -> (r: Result<A2AServer<H, B>, String>)
        ensures
            self.spec_card() is None ==> (r matches Err(m) && m@ == "Agent card is required"@),
            self.spec_card() is Some && self.spec_handler() is None ==> (r matches Err(m)
                && m@ == "Request handler is required"@),
            self.spec_card() is Some && self.spec_handler() is Some && self.spec_context_builder() is None ==> (r matches Err(
                m,
            ) && m@ == "Context builder is required"@),
            self.spec_card() is Some && self.spec_handler() is Some && self.spec_context_builder() is Some ==> (r matches Ok(
                s,
            ) && s.spec_card() == self.spec_card()->0 && s.spec_handler() == self.spec_handler()->0
                && s.spec_context_builder() == self.spec_context_builder()->0 && s.spec_extended() == self.spec_extended()
                && s.spec_config() == self.spec_config()),
    {
        let agent_card = match self.agent_card {
            Some(c) => c,
            None => return Err(owned("Agent card is required")),
        };
        let request_handler = match self.request_handler {
            Some(h) => h,
            None => return Err(owned("Request handler is required")),
        };
        let context_builder = match self.context_builder {
            Some(b) => b,
            None => return Err(owned("Context builder is required")),
        };
        Ok(A2AServer {
            extended_agent_card: self.extended_agent_card,
            handler: JSONRPCHandler::new(agent_card, request_handler),
            context_builder,
            config: self.config,
        })
    }
}

/// The value of a decimal digit string.
pub open spec fn digits_value(s: Seq<char>) -> nat
    decreases s.len(),
{
    if s.len() == 0 {
        0
    } else {
        digits_value(s.drop_last()) * 10 + ((s.last() as u32) - ('0' as u32)) as nat
    }
}

/// Whether every character is a decimal digit.
pub open spec fn all_digits(s: Seq<char>) -> bool {
    forall|i: int| 0 <= i < s.len() ==> '0' <= #[trigger] s[i] <= '9'
}

/// The number a text spells as `usize::from_str` reads it: decimal digits,
/// with an optional leading '+', and a value that fits in a `usize`.
pub open spec fn usize_of(s: Seq<char>) -> Option<usize> {
    let d = if s.len() > 0 && s[0] == '+' {
        s.drop_first()
    } else {
        s
    };
    if d.len() > 0 && all_digits(d) && digits_value(d) <= usize::MAX {
        Some(digits_value(d) as usize)
    } else {
        None
    }
}

/// Reads a `usize` (see `usize_of`).
pub fn parse_usize(s: &str) -> (r: Option<usize>)
    ensures
        r == usize_of(s@),
{
    let n = s.unicode_len();
    let start: usize = if n > 0 && s.get_char(0) == '+' {
        1
    } else {
        0
    };
    let ghost d = if s@.len() > 0 && s@[0] == '+' {
        s@.drop_first()
    } else {
        s@
    };
    assert(d =~= s@.skip(start as int));
    if start >= n {
        return None;
    }
    let mut value: usize = 0;
    let mut i: usize = start;
    while i < n
        invariant
            n == s@.len(),
            start <= i <= n,
            d == s@.skip(start as int),
            d == (if s@.len() > 0 && s@[0] == '+' {
                s@.drop_first()
            } else {
                s@
            }),
            all_digits(s@.subrange(start as int, i as int)),
            value as nat == digits_value(s@.subrange(start as int, i as int)),
        decreases n - i,
    {
        let c = s.get_char(i);
        proof {
            assert(s@.subrange(start as int, i + 1).drop_last() =~= s@.subrange(start as int, i as int));
            assert(s@.subrange(start as int, i + 1).last() == c);
        }
        if c < '0' || c > '9' {
            proof {
                assert(!all_digits(d)) by {
                    assert(d[i - start] == c);
                }
            }
            return None;
        }
        let digit = (c as u32 - '0' as u32) as usize;
        if value > (usize::MAX - digit) / 10 {
            proof {
                lemma_digits_value_prefix(d, i - start + 1);
                assert(d.subrange(0, i - start + 1) =~= s@.subrange(start as int, i + 1));
                assert(digits_value(s@.subrange(start as int, i + 1)) == value * 10 + digit);
                assert(value * 10 + digit > usize::MAX) by (nonlinear_arith)
                    requires
                        value > (usize::MAX - digit) / 10,
                        digit <= 9,
                ;
                assert(all_digits(d) ==> digits_value(d) >= digits_value(d.subrange(0, i - start + 1)));
            }
            return None;
        }
        proof {
            assert(value * 10 + digit <= usize::MAX) by (nonlinear_arith)
                requires
                    value <= (usize::MAX - digit) / 10,
                    digit <= 9,
            ;
        }
        value = value * 10 + digit;
        i = i + 1;
    }
    assert(s@.subrange(start as int, n as int) =~= d);
    Some(value)
}

proof fn lemma_digits_value_prefix(d: Seq<char>, k: int)
    requires
        0 <= k <= d.len(),
    ensures
        all_digits(d) ==> digits_value(d) >= digits_value(d.subrange(0, k)),
    decreases d.len() - k,
{
    if k < d.len() {
        lemma_digits_value_prefix(d, k + 1);
        assert(d.subrange(0, k + 1).drop_last() =~= d.subrange(0, k));
        if all_digits(d) {
            assert('0' <= d[k] <= '9');
            assert(digits_value(d.subrange(0, k + 1)) >= digits_value(d.subrange(0, k)));
        }
    } else {
        assert(d.subrange(0, k) =~= d);
    }
}

/// Whether a request must be refused as too large: there is a limit, the
/// declared content length reads as a number, and it exceeds the limit.
pub fn payload_too_large(max_content_length: Option<usize>, content_length: Option<&str>) -> (r: bool)
    ensures
        r == (max_content_length matches Some(max) && content_length matches Some(c) && usize_of(c@) matches Some(n)
            && n > max),
{
    match max_content_length {
        Some(max) => match content_length {
            Some(c) => match parse_usize(c) {
                Some(n) => n > max,
                None => false,
            },
            None => false,
        },
        None => false,
    }
}

/// The refusal of a request that is too large.
pub fn payload_too_large_error() -> (r: JSONRPCError)
    ensures
        r.code == INVALID_REQUEST,
        r.message@ == "Payload too large"@,
{
    JSONRPCError::new(INVALID_REQUEST, owned("Payload too large"))
}

/// The refusal of a request whose body cannot be read.
pub fn unreadable_body_error() -> (r: JSONRPCError)
    ensures
        r.code == INVALID_REQUEST,
        r.message@ == "Failed to read request body"@,
{
    JSONRPCError::new(INVALID_REQUEST, owned("Failed to read request body"))
}

/// The refusal of a body that is not JSON: "Invalid JSON: {detail}".
pub fn invalid_json_error(detail: &str) -> (r: JSONRPCError)
    ensures
        r.code == PARSE_ERROR,
        r.message@ == "Invalid JSON: "@ + detail@,
{
    JSONRPCError::new(PARSE_ERROR, concat2("Invalid JSON: ", detail))
}

/// Whether a request asks for a message stream, which is answered with
/// server-sent events.
pub fn is_streaming_request(request: &JsonValue) -> (r: bool)
    ensures
        r == (request.deep_view().get("method"@) == Some(JsonData::Str("message/stream"@))),
{
    proof {
        reveal_strlit("method");
    }
    match request.get("method") {
        Some(m) => match m.as_str() {
            Some(s) => str_eq(s, "message/stream"),
            None => false,
        },
        None => false,
    }
}

/// The id of a request, for an error response about it.
pub fn request_id(request: &JsonValue) -> (r: Option<JSONRPCId>)
    ensures
        r.deep_view() == match request.deep_view().get("id"@) {
            Some(v) => id_of(v),
            None => None::<IdData>,
        },
{
    proof {
        reveal_strlit("id");
    }
    match request.get("id") {
        Some(v) => id_from_value(v),
        None => None,
    }
}

/// The event sent in place of an event that could not be framed.
pub fn stream_error_frame() -> (r: &'static str)
    ensures
        r@ == "data: {\"error\":\"Stream error\"}\n\n"@,
{
    "data: {\"error\":\"Stream error\"}\n\n"
}


/// A request for the extended card is answered with the configured
/// extended card exactly when the card declares one and one is configured;
/// otherwise it is refused (never answered with another card).
pub proof fn law_extended_card_served(card: AgentCard, extended: Option<AgentCard>)
    ensures
        card.supports_authenticated_extended_card == Some(true) && extended is Some ==> extended_card_outcome(card, extended)
            == Ok::<AgentCard, Seq<char>>(extended->0),
        !(card.supports_authenticated_extended_card == Some(true) && extended is Some) ==> extended_card_outcome(
            card,
            extended,
        ) is Err,
{
}

} // verus!
