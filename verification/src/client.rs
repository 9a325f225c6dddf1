//! The client side: configuration, the choice of a transport for an agent,
//! the factory that plans client creation, and the decisions a client makes
//! before it sends a request.

use vstd::prelude::*;
use crate::error::A2AError;
use crate::core_types::{Message, MessageData, TaskState, TaskStatus, TaskStatusData, TransportProtocol};
use crate::json::{JsonValue, Metadata};
use crate::models::{
    AgentCapabilities, AgentCard, AgentInterface, MessageSendConfiguration, MessageSendParams,
    PushNotificationConfig, PushNotificationConfigData, Task, TaskData, TaskArtifactUpdateEvent,
    TaskArtifactUpdateEventData, TaskOrMessage, TaskStatusUpdateEvent, TaskStatusUpdateEventData,
};
use crate::text::{owned, str_eq, concat2};
use crate::copy::{clone_vec, clone_opt};

verus! {

/// An update of a task seen by a client.
#[derive(Debug, Clone)]
pub enum TaskUpdateEvent {
    Status(TaskStatusUpdateEvent),
    Artifact(TaskArtifactUpdateEvent),
}

/// A task together with the update that produced it, if any.
pub type ClientEvent = (Task, Option<TaskUpdateEvent>);

/// What a client yields for a sent message: a task event or a message.
#[derive(Debug)]
pub enum ClientEventOrMessage {
    Event(ClientEvent),
    Message(Message),
}

impl Clone for ClientEventOrMessage {
    fn clone(&self) -> (r: Self) {
        match self {
            ClientEventOrMessage::Event((t, u)) => {
                let update = match u {
                    Some(x) => Some(x.clone()),
                    None => None,
                };
                ClientEventOrMessage::Event((t.clone(), update))
            },
            ClientEventOrMessage::Message(m) => ClientEventOrMessage::Message(m.clone()),
        }
    }
}

/// Per-call context of a client request.
pub struct ClientCallContext {
    pub metadata: Metadata,
    pub http_kwargs: Metadata,
}

impl Default for ClientCallContext {
    fn default() -> (r: Self)
        ensures
            r.metadata@ == Map::<Seq<char>, crate::json::JsonData>::empty(),
            r.http_kwargs@ == Map::<Seq<char>, crate::json::JsonData>::empty(),
    {
        ClientCallContext { metadata: Metadata::new(), http_kwargs: Metadata::new() }
    }
}

impl ClientCallContext {
    /// An empty context.
    pub fn new() -> (r: Self)
        ensures
            r.metadata@ == Map::<Seq<char>, crate::json::JsonData>::empty(),
            r.http_kwargs@ == Map::<Seq<char>, crate::json::JsonData>::empty(),
    {
        Self::default()
    }

    /// This context with `key` set to `value` in its metadata.
    pub fn with_metadata(self, key: String, value: JsonValue) -> (r: Self)
        ensures
            r.metadata@ == self.metadata@.insert(key@, value.deep_view()),
            r.http_kwargs@ == self.http_kwargs@,
    {
        let ClientCallContext { mut metadata, http_kwargs } = self;
        metadata.insert(key, value);
        ClientCallContext { metadata, http_kwargs }
    }

    /// This context with `key` set to `value` in its HTTP arguments.
    pub fn with_http_kwargs(self, key: String, value: JsonValue) -> (r: Self)
        ensures
            r.http_kwargs@ == self.http_kwargs@.insert(key@, value.deep_view()),
            r.metadata@ == self.metadata@,
    {
        let ClientCallContext { metadata, mut http_kwargs } = self;
        http_kwargs.insert(key, value);
        ClientCallContext { metadata, http_kwargs }
    }
}

/// How a client talks to agents.
pub struct ClientConfig {
    /// Whether to use streaming when the agent supports it.
    pub streaming: bool,
    /// Whether to poll for task updates instead of waiting on the request.
    pub polling: bool,
    /// The transports the client can use, in its order of preference; none
    /// listed means JSON-RPC only.
    pub supported_transports: Vec<TransportProtocol>,
    /// Whether the client's order of preference decides over the agent's.
    pub use_client_preference: bool,
    /// The output modes the client accepts.
    pub accepted_output_modes: Vec<String>,
    /// Push notification configurations to send along with messages.
    pub push_notification_configs: Vec<PushNotificationConfig>,
    /// The extensions the client activates.
    pub extensions: Vec<String>,
    /// The time limit of a request, when one is set.
    pub timeout: Option<std::time::Duration>,
}

/// The content of a client configuration.
pub struct ClientConfigData {
    pub streaming: bool,
    pub polling: bool,
    pub supported_transports: Seq<TransportProtocol>,
    pub use_client_preference: bool,
    pub accepted_output_modes: Seq<Seq<char>>,
    pub push_notification_configs: Seq<PushNotificationConfigData>,
    pub extensions: Seq<Seq<char>>,
    pub timeout: Option<std::time::Duration>,
}

impl DeepView for ClientConfig {
    type V = ClientConfigData;

    open spec fn deep_view(&self) -> ClientConfigData {
        ClientConfigData {
            streaming: self.streaming,
            polling: self.polling,
            supported_transports: self.supported_transports@,
            use_client_preference: self.use_client_preference,
            accepted_output_modes: self.accepted_output_modes.deep_view(),
            push_notification_configs: self.push_notification_configs.deep_view(),
            extensions: self.extensions.deep_view(),
            timeout: self.timeout,
        }
    }
}

fn copy_protocols(v: &Vec<TransportProtocol>) -> (r: Vec<TransportProtocol>)
    ensures
        r@ == v@,
{
    let mut out: Vec<TransportProtocol> = Vec::new();
    let mut i: usize = 0;
    while i < v.len()
        invariant
            i <= v@.len(),
            out@ == v@.take(i as int),
        decreases v@.len() - i,
    {
        out.push(v[i]);
        i = i + 1;
        assert(out@ =~= v@.take(i as int));
    }
    assert(v@.take(i as int) =~= v@);
    out
}

impl Clone for ClientConfig {
    fn clone(&self) -> (r: Self)
        ensures
            r.deep_view() == self.deep_view(),
    {
        ClientConfig {
            streaming: self.streaming,
            polling: self.polling,
            supported_transports: copy_protocols(&self.supported_transports),
            use_client_preference: self.use_client_preference,
            accepted_output_modes: clone_vec(&self.accepted_output_modes),
            push_notification_configs: clone_vec(&self.push_notification_configs),
            extensions: clone_vec(&self.extensions),
            timeout: self.timeout,
        }
    }
}

impl Default for ClientConfig {
    fn default() -> (r: Self)
        ensures
            r.deep_view() == (ClientConfigData {
                streaming: true,
                polling: false,
                supported_transports: Seq::empty(),
                use_client_preference: false,
                accepted_output_modes: Seq::empty(),
                push_notification_configs: Seq::empty(),
                extensions: Seq::empty(),
                timeout: None,
            }),
    {
        let r = ClientConfig {
            streaming: true,
            polling: false,
            supported_transports: Vec::new(),
            use_client_preference: false,
            accepted_output_modes: Vec::new(),
            push_notification_configs: Vec::new(),
            extensions: Vec::new(),
            timeout: None,
        };
        assert(r.deep_view().accepted_output_modes =~= Seq::<Seq<char>>::empty());
        assert(r.deep_view().push_notification_configs =~= Seq::<PushNotificationConfigData>::empty());
        assert(r.deep_view().extensions =~= Seq::<Seq<char>>::empty());
        r
    }
}

impl ClientConfig {
    /// The default configuration: streaming, no polling, JSON-RPC only, the
    /// agent's preference decides, nothing else set.
    pub fn new() -> (r: Self)
        ensures
            r.deep_view() == (ClientConfigData {
                streaming: true,
                polling: false,
                supported_transports: Seq::empty(),
                use_client_preference: false,
                accepted_output_modes: Seq::empty(),
                push_notification_configs: Seq::empty(),
                extensions: Seq::empty(),
                timeout: None,
            }),
    {
        Self::default()
    }

    /// This configuration with streaming set to `streaming`.
    pub fn with_streaming(self, streaming: bool) -> (r: Self)
        ensures
            r.deep_view() == (ClientConfigData { streaming, ..self.deep_view() }),
    {
        ClientConfig { streaming, ..self }
    }

    /// This configuration with polling set to `polling`.
    pub fn with_polling(self, polling: bool) -> (r: Self)
        ensures
            r.deep_view() == (ClientConfigData { polling, ..self.deep_view() }),
    {
        ClientConfig { polling, ..self }
    }

    /// This configuration supporting `transports`, in that order.
    pub fn with_supported_transports(self, transports: Vec<TransportProtocol>) -> (r: Self)
        ensures
            r.deep_view() == (ClientConfigData { supported_transports: transports@, ..self.deep_view() }),
    {
        ClientConfig { supported_transports: transports, ..self }
    }

    /// This configuration with the client's preference deciding or not.
    pub fn with_client_preference(self, use_client_preference: bool) -> (r: Self)
        ensures
            r.deep_view() == (ClientConfigData { use_client_preference, ..self.deep_view() }),
    {
        ClientConfig { use_client_preference, ..self }
    }

    /// This configuration accepting the output modes `modes`.
    pub fn with_accepted_output_modes(self, modes: Vec<String>) -> (r: Self)
        ensures
            r.deep_view() == (ClientConfigData { accepted_output_modes: modes.deep_view(), ..self.deep_view() }),
    {
        ClientConfig { accepted_output_modes: modes, ..self }
    }

    /// This configuration with one more push notification configuration.
    pub fn with_push_notification_config(self, config: PushNotificationConfig) -> (r: Self)
        ensures
            r.deep_view() == (ClientConfigData {
                push_notification_configs: self.deep_view().push_notification_configs.push(config.deep_view()),
                ..self.deep_view()
            }),
    {
        let ClientConfig {
            streaming,
            polling,
            supported_transports,
            use_client_preference,
            accepted_output_modes,
            mut push_notification_configs,
            extensions,
            timeout,
        } = self;
        let ghost before = push_notification_configs.deep_view();
        push_notification_configs.push(config);
        assert(push_notification_configs.deep_view() =~= before.push(config.deep_view()));
        ClientConfig {
            streaming,
            polling,
            supported_transports,
            use_client_preference,
            accepted_output_modes,
            push_notification_configs,
            extensions,
            timeout,
        }
    }

    /// This configuration activating the extensions `extensions`.
    pub fn with_extensions(self, extensions: Vec<String>) -> (r: Self)
        ensures
            r.deep_view() == (ClientConfigData { extensions: extensions.deep_view(), ..self.deep_view() }),
    {
        ClientConfig { extensions, ..self }
    }

    /// This configuration with the request time limit `timeout`.
    pub fn with_timeout(self, timeout: std::time::Duration) -> (r: Self)
        ensures
            r.deep_view() == (ClientConfigData { timeout: Some(timeout), ..self.deep_view() }),
    {
        ClientConfig { timeout: Some(timeout), ..self }
    }
}

/// `s` with the URL of `p` set to `url`: in place when `p` is listed, else
/// at the end.
pub open spec fn offer_insert(
    s: Seq<(TransportProtocol, Seq<char>)>,
    p: TransportProtocol,
    url: Seq<char>,
) -> Seq<(TransportProtocol, Seq<char>)> {
    if exists|i: int| 0 <= i < s.len() && s[i].0 == p {
        s.update(choose|i: int| 0 <= i < s.len() && s[i].0 == p, (p, url))
    } else {
        s.push((p, url))
    }
}

/// `base` with the interfaces (URL, transport label) added in order; an
/// interface whose transport is not known is skipped.
pub open spec fn offers_with_interfaces(
    base: Seq<(TransportProtocol, Seq<char>)>,
    ifaces: Seq<(Seq<char>, Seq<char>)>,
) -> Seq<(TransportProtocol, Seq<char>)>
    decreases ifaces.len(),
{
    if ifaces.len() == 0 {
        base
    } else {
        let prev = offers_with_interfaces(base, ifaces.drop_last());
        match TransportProtocol::spec_parse(ifaces.last().1) {
            Some(p) => offer_insert(prev, p, ifaces.last().0),
            None => prev,
        }
    }
}

/// The URL and transport label of an interface.
pub open spec fn interface_view(i: AgentInterface) -> (Seq<char>, Seq<char>) {
    (i.url@, i.transport@)
}

/// The transport an agent prefers: the one its card names, JSON-RPC when
/// the card names none or one that is not known.
pub open spec fn preferred_of(card: AgentCard) -> TransportProtocol {
    match card.preferred_transport {
        Some(t) => match TransportProtocol::spec_parse(t@) {
            Some(p) => p,
            None => TransportProtocol::Jsonrpc,
        },
        None => TransportProtocol::Jsonrpc,
    }
}

/// The transports an agent offers with their URLs, in the agent's order of
/// preference: its preferred transport at the card's URL, then its
/// additional interfaces.
pub open spec fn server_offers(card: AgentCard) -> Seq<(TransportProtocol, Seq<char>)> {
    let base = seq![(preferred_of(card), card.url@)];
    match card.additional_interfaces {
        Some(v) => offers_with_interfaces(base, v@.map_values(|i: AgentInterface| interface_view(i))),
        None => base,
    }
}

/// The transports a client can use, in its order of preference.
pub open spec fn client_transports(config: ClientConfigData) -> Seq<TransportProtocol> {
    if config.supported_transports.len() == 0 {
        seq![TransportProtocol::Jsonrpc]
    } else {
        config.supported_transports
    }
}

/// The URL of the first offer of `p`.
pub open spec fn lookup_offer(offers: Seq<(TransportProtocol, Seq<char>)>, p: TransportProtocol) -> Option<Seq<char>>
    decreases offers.len(),
{
    if offers.len() == 0 {
        None
    } else if offers[0].0 == p {
        Some(offers[0].1)
    } else {
        lookup_offer(offers.drop_first(), p)
    }
}

/// The first offer whose transport the client can use.
pub open spec fn first_supported_offer(
    offers: Seq<(TransportProtocol, Seq<char>)>,
    client: Seq<TransportProtocol>,
) -> Option<(TransportProtocol, Seq<char>)>
    decreases offers.len(),
{
    if offers.len() == 0 {
        None
    } else if client.contains(offers[0].0) {
        Some(offers[0])
    } else {
        first_supported_offer(offers.drop_first(), client)
    }
}

/// The first of the client's transports that is offered, with its URL.
pub open spec fn first_offered_transport(
    client: Seq<TransportProtocol>,
    offers: Seq<(TransportProtocol, Seq<char>)>,
) -> Option<(TransportProtocol, Seq<char>)>
    decreases client.len(),
{
    if client.len() == 0 {
        None
    } else {
        match lookup_offer(offers, client[0]) {
            Some(u) => Some((client[0], u)),
            None => first_offered_transport(client.drop_first(), offers),
        }
    }
}

/// The transport and URL a client uses for an agent: the first match in the
/// client's order when the client's preference decides, else the first in
/// the agent's order.
pub open spec fn chosen_transport(config: ClientConfigData, card: AgentCard) -> Option<(TransportProtocol, Seq<char>)> {
    if config.use_client_preference {
        first_offered_transport(client_transports(config), server_offers(card))
    } else {
        first_supported_offer(server_offers(card), client_transports(config))
    }
}

/// No transport occurs twice among the offers.
pub open spec fn offers_distinct(s: Seq<(TransportProtocol, Seq<char>)>) -> bool {
    forall|i: int, j: int| 0 <= i < j < s.len() ==> s[i].0 != s[j].0
}

/// The abstract content of an offer list.
pub open spec fn offers_view(v: Seq<(TransportProtocol, String)>) -> Seq<(TransportProtocol, Seq<char>)> {
    v.map_values(|e: (TransportProtocol, String)| (e.0, e.1@))
}

fn offer_insert_exec(v: &mut Vec<(TransportProtocol, String)>, p: TransportProtocol, url: String)
    requires
        offers_distinct(offers_view(old(v)@)),
    ensures
        offers_view(final(v)@) == offer_insert(offers_view(old(v)@), p, url@),
        offers_distinct(offers_view(final(v)@)),
{
    let ghost s = offers_view(v@);
    let mut i: usize = 0;
    while i < v.len()
        invariant
            s == offers_view(v@),
            s == offers_view(old(v)@),
            offers_distinct(s),
            i <= v@.len(),
            forall|j: int| 0 <= j < i ==> v@[j].0 != p,
        decreases v@.len() - i,
    {
        if v[i].0 == p {
            proof {
                assert(s[i as int].0 == p);
                let c = choose|j: int| 0 <= j < s.len() && s[j].0 == p;
                assert(c == i);
            }
            let ghost uv = url@;
            v.set(i, (p, url));
            proof {
                assert(offers_view(v@) =~= s.update(i as int, (p, uv)));
                assert(offer_insert(s, p, uv) == s.update(i as int, (p, uv)));
                let t = offers_view(v@);
                assert forall|a: int, b: int| 0 <= a < b < t.len() implies t[a].0 != t[b].0 by {
                    assert(t[a].0 == s[a].0);
                    assert(t[b].0 == s[b].0);
                }
            }
            return;
        }
        i = i + 1;
    }
    v.push((p, url));
    proof {
        assert(!exists|j: int| 0 <= j < s.len() && s[j].0 == p);
        assert(offers_view(v@) =~= s.push((p, url@)));
        let t = offers_view(v@);
        assert forall|a: int, b: int| 0 <= a < b < t.len() implies t[a].0 != t[b].0 by {
            if b < s.len() {
                assert(t[a].0 == s[a].0);
                assert(t[b].0 == s[b].0);
            } else {
                assert(t[a].0 == v@[a].0);
            }
        }
    }
}

/// The transports an agent offers, in its order of preference.
fn offers_of(card: &AgentCard) -> (r: Vec<(TransportProtocol, String)>)
    ensures
        offers_view(r@) == server_offers(*card),
        offers_distinct(offers_view(r@)),
{
    let preferred = match &card.preferred_transport {
        Some(t) => match TransportProtocol::from_str(t.as_str()) {
            Ok(p) => p,
            Err(_) => TransportProtocol::Jsonrpc,
        },
        None => TransportProtocol::Jsonrpc,
    };
    let mut offers: Vec<(TransportProtocol, String)> = Vec::new();
    offers.push((preferred, card.url.clone()));
    assert(offers_view(offers@) =~= seq![(preferred_of(*card), card.url@)]);
    if let Some(ifaces) = &card.additional_interfaces {
        let ghost base = seq![(preferred_of(*card), card.url@)];
        let ghost all = ifaces@.map_values(|i: AgentInterface| interface_view(i));
        let mut k: usize = 0;
        while k < ifaces.len()
            invariant
                k <= ifaces@.len(),
                all == ifaces@.map_values(|i: AgentInterface| interface_view(i)),
                offers_view(offers@) == offers_with_interfaces(base, all.take(k as int)),
                offers_distinct(offers_view(offers@)),
            decreases ifaces@.len() - k,
        {
            let iface = &ifaces[k];
            proof {
                assert(all.take(k + 1).drop_last() =~= all.take(k as int));
                assert(all.take(k + 1).last() == interface_view(*iface));
            }
            match TransportProtocol::from_str(iface.transport.as_str()) {
                Ok(p) => {
                    offer_insert_exec(&mut offers, p, iface.url.clone());
                },
                Err(_) => {},
            }
            k = k + 1;
        }
        assert(all.take(k as int) =~= all);
    }
    offers
}

/// The transports a client can use, in its order of preference.
fn client_transports_of(config: &ClientConfig) -> (r: Vec<TransportProtocol>)
    ensures
        r@ == client_transports(config.deep_view()),
{
    if config.supported_transports.len() == 0 {
        let v = vec![TransportProtocol::Jsonrpc];
        assert(v@ =~= seq![TransportProtocol::Jsonrpc]);
        v
    } else {
        copy_protocols(&config.supported_transports)
    }
}

fn contains_protocol(v: &Vec<TransportProtocol>, p: TransportProtocol) -> (r: bool)
    ensures
        r == v@.contains(p),
{
    let mut i: usize = 0;
    while i < v.len()
        invariant
            i <= v@.len(),
            forall|j: int| 0 <= j < i ==> v@[j] != p,
        decreases v@.len() - i,
    {
        if v[i] == p {
            assert(v@[i as int] == p);
            return true;
        }
        i = i + 1;
    }
    false
}

fn lookup_offer_exec(offers: &Vec<(TransportProtocol, String)>, p: TransportProtocol) -> (r: Option<String>)
    ensures
        r.deep_view() == lookup_offer(offers_view(offers@), p),
{
    let ghost s = offers_view(offers@);
    let mut i: usize = 0;
    assert(s.skip(0) =~= s);
    while i < offers.len()
        invariant
            s == offers_view(offers@),
            i <= offers@.len(),
            lookup_offer(s, p) == lookup_offer(s.skip(i as int), p),
        decreases offers@.len() - i,
    {
        proof {
            assert(s.skip(i as int).drop_first() =~= s.skip(i + 1));
            assert(s.skip(i as int)[0] == s[i as int]);
        }
        if offers[i].0 == p {
            return Some(offers[i].1.clone());
        }
        i = i + 1;
    }
    proof {
        assert(s.skip(i as int).len() == 0);
    }
    None
}

/// What producing a transport for a label means: the built-in JSON-RPC
/// transport, or one registered by the user.
pub enum TransportProducer<P> {
    JsonRpc,
    Custom(P),
}

/// Plans the creation of clients for agents: holds the client
/// configuration, the consumers every client gets, and the transports that
/// can be produced, by label.
pub struct ClientFactory<C, P> {
    config: ClientConfig,
    consumers: Vec<C>,
    registry: Vec<(String, TransportProducer<P>)>,
}

/// No label occurs twice in a registry.
pub open spec fn labels_distinct<P>(r: Seq<(String, TransportProducer<P>)>) -> bool {
    forall|i: int, j: int| 0 <= i < j < r.len() ==> r[i].0@ != r[j].0@
}

impl<C, P> ClientFactory<C, P> {
    /// The client configuration.
    pub closed spec fn spec_config(&self) -> ClientConfigData {
        self.config.deep_view()
    }

    /// The registered transports: label and producer, in order of first
    /// registration.
    pub closed spec fn registry(&self) -> Seq<(Seq<char>, TransportProducer<P>)> {
        self.registry@.map_values(|e: (String, TransportProducer<P>)| (e.0@, e.1))
    }

    /// The producer registered under `label`, if any.
    pub open spec fn producer_for(&self, label: Seq<char>) -> Option<TransportProducer<P>> {
        if exists|i: int| 0 <= i < self.registry().len() && self.registry()[i].0 == label {
            Some(self.registry()[choose|i: int| 0 <= i < self.registry().len() && self.registry()[i].0 == label].1)
        } else {
            None
        }
    }

    /// Well-formedness: no label is registered twice.
    pub closed spec fn wf(&self) -> bool {
        labels_distinct(self.registry@)
    }

    /// A factory with the given configuration and consumers; JSON-RPC is
    /// registered when the configuration supports it (or lists nothing).
    pub fn new(config: ClientConfig, consumers: Vec<C>) -> (r: Self)
        ensures
            r.wf(),
            r.spec_config() == config.deep_view(),
            r.spec_consumers() == consumers@,
            r.producer_for("JSONRPC"@) == if config.supported_transports@.len() == 0
                || config.supported_transports@.contains(TransportProtocol::Jsonrpc) {
                Some(TransportProducer::<P>::JsonRpc)
            } else {
                None
            },
            forall|l: Seq<char>| l != "JSONRPC"@ ==> #[trigger] r.producer_for(l) is None,
    {
        let mut f = ClientFactory { config, consumers, registry: Vec::new() };
        assert(f.registry() =~= Seq::<(Seq<char>, TransportProducer<P>)>::empty());
        f.register_defaults();
        f
    }

    /// A factory with the given configuration and no consumers.
    pub fn with_config(config: ClientConfig) -> (r: Self)
        ensures
            r.wf(),
            r.spec_config() == config.deep_view(),
            r.spec_consumers().len() == 0,
            r.producer_for("JSONRPC"@) == if config.supported_transports@.len() == 0
                || config.supported_transports@.contains(TransportProtocol::Jsonrpc) {
                Some(TransportProducer::<P>::JsonRpc)
            } else {
                None
            },
            forall|l: Seq<char>| l != "JSONRPC"@ ==> #[trigger] r.producer_for(l) is None,
    {
        Self::new(config, Vec::new())
    }

    fn register_defaults(&mut self)
        requires
            old(self).registry@.len() == 0,
        ensures
            final(self).wf(),
            final(self).config == old(self).config,
            final(self).consumers == old(self).consumers,
            final(self).spec_consumers() == old(self).spec_consumers(),
            final(self).producer_for("JSONRPC"@) == if old(self).config.supported_transports@.len() == 0
                || old(self).config.supported_transports@.contains(TransportProtocol::Jsonrpc) {
                Some(TransportProducer::<P>::JsonRpc)
            } else {
                None
            },
            forall|l: Seq<char>| l != "JSONRPC"@ ==> #[trigger] final(self).producer_for(l) is None,
    {
        if self.config.supported_transports.len() == 0
            || contains_protocol(&self.config.supported_transports, TransportProtocol::Jsonrpc) {
            let label = TransportProtocol::Jsonrpc.to_string();
            self.registry.push((label, TransportProducer::JsonRpc));
            proof {
                assert(self.registry()[0].0 == "JSONRPC"@);
            }
        }
        assert forall|l: Seq<char>| l != "JSONRPC"@ implies #[trigger] self.producer_for(l) is None by {
            if self.registry@.len() > 0 {
                assert(self.registry()[0].0 == "JSONRPC"@);
            }
        }
    }

    /// Registers `generator` as the producer for `label`, replacing the one
    /// registered under it before.
    pub fn register(&mut self, label: String, generator: P)
        requires
            old(self).wf(),
        ensures
            final(self).wf(),
            final(self).spec_config() == old(self).spec_config(),
            final(self).spec_consumers() == old(self).spec_consumers(),
            final(self).producer_for(label@) == Some(TransportProducer::Custom(generator)),
            forall|l: Seq<char>| l != label@ ==> #[trigger] final(self).producer_for(l) == old(self).producer_for(l),
    {
        let ghost before = self.registry@;
        let mut i: usize = 0;
        while i < self.registry.len()
            invariant
                before == self.registry@,
                before == old(self).registry@,
                self.config == old(self).config,
                self.consumers == old(self).consumers,
                labels_distinct(before),
                i <= before.len(),
                forall|j: int| 0 <= j < i ==> before[j].0@ != label@,
            decreases before.len() - i,
        {
            if str_eq(self.registry[i].0.as_str(), label.as_str()) {
                let ghost lv = label@;
                self.registry.set(i, (label, TransportProducer::Custom(generator)));
                proof {
                    let r = self.registry();
                    assert forall|a: int, b: int| 0 <= a < b < self.registry@.len()
                        implies self.registry@[a].0@ != self.registry@[b].0@ by {
                        assert(self.registry@[a].0@ == before[a].0@);
                        assert(self.registry@[b].0@ == before[b].0@);
                    }
                    assert(r[i as int].0 == lv);
                    let c = choose|j: int| 0 <= j < r.len() && r[j].0 == lv;
                    assert(c == i);
                    assert forall|l: Seq<char>| l != lv implies #[trigger] self.producer_for(l) == old(self).producer_for(l) by {
                        let r0 = old(self).registry();
                        assert forall|j: int| 0 <= j < r.len() implies (r[j].0 == l <==> r0[j].0 == l) by {
                            if j != i {
                                assert(r[j] == r0[j]);
                            }
                        }
                        if exists|j: int| 0 <= j < r.len() && r[j].0 == l {
                            let c1 = choose|j: int| 0 <= j < r.len() && r[j].0 == l;
                            let c0 = choose|j: int| 0 <= j < r0.len() && r0[j].0 == l;
                            assert(c1 != i);
                            assert(r[c1] == r0[c1]);
                            assert(c0 == c1);
                        }
                    }
                }
                return;
            }
            i = i + 1;
        }
        let ghost lv = label@;
        self.registry.push((label, TransportProducer::Custom(generator)));
        proof {
            let r = self.registry();
            let r0 = old(self).registry();
            assert forall|a: int, b: int| 0 <= a < b < self.registry@.len()
                implies self.registry@[a].0@ != self.registry@[b].0@ by {
                assert(self.registry@[a] == before[a]);
                if b < before.len() {
                    assert(self.registry@[b] == before[b]);
                }
            }
            assert(r[before.len() as int].0 == lv);
            let c = choose|j: int| 0 <= j < r.len() && r[j].0 == lv;
            assert(c == before.len());
            assert forall|l: Seq<char>| l != lv implies #[trigger] self.producer_for(l) == old(self).producer_for(l) by {
                assert forall|j: int| 0 <= j < r0.len() implies r[j] == r0[j] by {}
                if exists|j: int| 0 <= j < r.len() && r[j].0 == l {
                    let c1 = choose|j: int| 0 <= j < r.len() && r[j].0 == l;
                    assert(c1 < r0.len());
                    assert(r0[c1].0 == l);
                    let c0 = choose|j: int| 0 <= j < r0.len() && r0[j].0 == l;
                    assert(c0 == c1);
                }
                if exists|j: int| 0 <= j < r0.len() && r0[j].0 == l {
                    let c0 = choose|j: int| 0 <= j < r0.len() && r0[j].0 == l;
                    assert(r[c0].0 == l);
                }
            }
        }
    }

    /// The client configuration.
    pub fn config(&self) -> (r: &ClientConfig)
        ensures
            r.deep_view() == self.spec_config(),
    {
        &self.config
    }

    /// The consumers every created client gets.
    pub closed spec fn spec_consumers(&self) -> Seq<C> {
        self.consumers@
    }

    /// The consumers every created client gets.
    pub fn consumers(&self) -> (r: &Vec<C>)
        ensures
            r@ == self.spec_consumers(),
    {
        &self.consumers
    }

    /// The transport to use for `card`, with its URL: see
    /// `chosen_transport`. When none fits, an internal error "No compatible
    /// transports found".
    pub fn determine_transport(&self, card: &AgentCard) -> (r: Result<(TransportProtocol, String), A2AError>)
        ensures
            r is Ok <==> chosen_transport(self.spec_config(), *card) is Some,
            r matches Ok((p, u)) ==> chosen_transport(self.spec_config(), *card) == Some((p, u@)),
            r matches Err(e) ==> e matches A2AError::Internal(m) && m@ == "No compatible transports found"@,
    {
        let offers = offers_of(card);
        let client = client_transports_of(&self.config);
        let ghost s = offers_view(offers@);
        let ghost c = client@;
        if self.config.use_client_preference {
            let mut i: usize = 0;
            assert(c.skip(0) =~= c);
            while i < client.len()
                invariant
                    c == client@,
                    c == client_transports(self.spec_config()),
                    s == offers_view(offers@),
                    s == server_offers(*card),
                    self.spec_config().use_client_preference,
                    i <= c.len(),
                    first_offered_transport(c, s) == first_offered_transport(c.skip(i as int), s),
                decreases c.len() - i,
            {
                proof {
                    assert(c.skip(i as int).drop_first() =~= c.skip(i + 1));
                    assert(c.skip(i as int)[0] == c[i as int]);
                }
                match lookup_offer_exec(&offers, client[i]) {
                    Some(url) => {
                        assert(first_offered_transport(c.skip(i as int), s) == Some((c[i as int], url@)));
                        return Ok((client[i], url));
                    },
                    None => {},
                }
                i = i + 1;
            }
            assert(c.skip(i as int).len() == 0);
        } else {
            let mut i: usize = 0;
            assert(s.skip(0) =~= s);
            while i < offers.len()
                invariant
                    c == client@,
                    c == client_transports(self.spec_config()),
                    s == offers_view(offers@),
                    s == server_offers(*card),
                    !self.spec_config().use_client_preference,
                    i <= s.len(),
                    first_supported_offer(s, c) == first_supported_offer(s.skip(i as int), c),
                decreases s.len() - i,
            {
                proof {
                    assert(s.skip(i as int).drop_first() =~= s.skip(i + 1));
                    assert(s.skip(i as int)[0] == s[i as int]);
                }
                if contains_protocol(&client, offers[i].0) {
                    return Ok((offers[i].0, offers[i].1.clone()));
                }
                i = i + 1;
            }
            assert(s.skip(i as int).len() == 0);
        }
        Err(A2AError::transport_error(owned("No compatible transports found")))
    }

    /// The configuration with the call's extensions appended to the
    /// configured ones.
    pub fn merge_extensions(&self, extensions: Option<Vec<String>>) -> (r: ClientConfig)
        ensures
            r.deep_view() == (ClientConfigData {
                extensions: match extensions {
                    Some(e) => self.spec_config().extensions + e.deep_view(),
                    None => self.spec_config().extensions,
                },
                ..self.spec_config()
            }),
    {
        let config = self.config.clone();
        match extensions {
            Some(call_extensions) => {
                let ClientConfig {
                    streaming,
                    polling,
                    supported_transports,
                    use_client_preference,
                    accepted_output_modes,
                    push_notification_configs,
                    mut extensions,
                    timeout,
                } = config;
                let ghost a = extensions.deep_view();
                let mut j: usize = 0;
                while j < call_extensions.len()
                    invariant
                        j <= call_extensions@.len(),
                        extensions.deep_view() == a + call_extensions.deep_view().take(j as int),
                    decreases call_extensions@.len() - j,
                {
                    let e = call_extensions[j].clone();
                    let ghost before = extensions.deep_view();
                    let ghost ev = e@;
                    extensions.push(e);
                    proof {
                        assert(extensions.deep_view() =~= before.push(ev));
                        assert(call_extensions.deep_view().take(j + 1)
                            =~= call_extensions.deep_view().take(j as int).push(call_extensions@[j as int]@));
                        assert(extensions.deep_view() =~= a + call_extensions.deep_view().take(j + 1));
                    }
                    j = j + 1;
                }
                assert(call_extensions.deep_view().take(j as int) =~= call_extensions.deep_view());
                ClientConfig {
                    streaming,
                    polling,
                    supported_transports,
                    use_client_preference,
                    accepted_output_modes,
                    push_notification_configs,
                    extensions,
                    timeout,
                }
            },
            None => config,
        }
    }

    /// The registered producer for the protocol `protocol`; an internal
    /// error "No client available for {label}" when there is none.
    pub fn producer(&self, protocol: TransportProtocol) -> (r: Result<&TransportProducer<P>, A2AError>)
        requires
            self.wf(),
        ensures
            r is Ok <==> self.producer_for(protocol.spec_label()) is Some,
            r matches Ok(x) ==> self.producer_for(protocol.spec_label()) == Some(*x),
            r matches Err(e) ==> e matches A2AError::Internal(m)
                && m@ == "No client available for "@ + protocol.spec_label(),
    {
        let label = protocol.to_string();
        let mut i: usize = 0;
        while i < self.registry.len()
            invariant
                i <= self.registry@.len(),
                labels_distinct(self.registry@),
                label@ == protocol.spec_label(),
                forall|j: int| 0 <= j < i ==> self.registry@[j].0@ != label@,
            decreases self.registry@.len() - i,
        {
            if str_eq(self.registry[i].0.as_str(), label.as_str()) {
                proof {
                    let r = self.registry();
                    assert(r[i as int].0 == label@);
                    let c = choose|j: int| 0 <= j < r.len() && r[j].0 == label@;
                    assert(c == i);
                }
                return Ok(&self.registry[i].1);
            }
            i = i + 1;
        }
        proof {
            let r = self.registry();
            assert(!exists|j: int| 0 <= j < r.len() && r[j].0 == label@);
        }
        Err(A2AError::transport_error(concat2("No client available for ", label.as_str())))
    }

    /// What creating a client for `card` needs: the transport and its URL,
    /// the producer registered for it, and the configuration with the
    /// call's extensions merged in.
    pub fn prepare(&self, card: &AgentCard, extensions: Option<Vec<String>>) -> (r: Result<
        (TransportProtocol, String, &TransportProducer<P>, ClientConfig),
        A2AError,
    >)
        requires
            self.wf(),
        ensures
            r is Ok <==> (chosen_transport(self.spec_config(), *card) matches Some((p, _))
                && self.producer_for(p.spec_label()) is Some),
            r matches Ok((p, u, x, c)) ==> {
                &&& chosen_transport(self.spec_config(), *card) == Some((p, u@))
                &&& self.producer_for(p.spec_label()) == Some(*x)
                &&& c.deep_view() == (ClientConfigData {
                    extensions: match extensions {
                        Some(e) => self.spec_config().extensions + e.deep_view(),
                        None => self.spec_config().extensions,
                    },
                    ..self.spec_config()
                })
            },
    {
        let (protocol, url) = match self.determine_transport(card) {
            Ok(x) => x,
            Err(e) => return Err(e),
        };
        let producer = match self.producer(protocol) {
            Ok(x) => x,
            Err(e) => return Err(e),
        };
        let config = self.merge_extensions(extensions);
        Ok((protocol, url, producer, config))
    }
}

/// The interfaces of a minimal card: one per transport after the first,
/// all at `url`.
fn interfaces_at(url: &String, transports: &Vec<String>) -> (r: Vec<AgentInterface>)
    ensures
        r@.len() == if transports@.len() > 1 { transports@.len() - 1 } else { 0 },
        forall|i: int| 0 <= i < r@.len() ==> (#[trigger] r@[i]).url@ == url@ && r@[i].transport@ == transports@[i + 1]@,
{
    let mut out: Vec<AgentInterface> = Vec::new();
    if transports.len() > 1 {
        let mut i: usize = 1;
        while i < transports.len()
            invariant
                1 <= i <= transports@.len(),
                out@.len() == i - 1,
                forall|j: int| 0 <= j < out@.len() ==> (#[trigger] out@[j]).url@ == url@ && out@[j].transport@ == transports@[j + 1]@,
            decreases transports@.len() - i,
        {
            out.push(AgentInterface::new(url.clone(), transports[i].clone()));
            i = i + 1;
        }
    }
    out
}

/// The transport labels given to `minimal_agent_card`, none when absent.
pub open spec fn transport_labels(transports: Option<Vec<String>>) -> Seq<Seq<char>> {
    match transports {
        Some(v) => v.deep_view(),
        None => Seq::empty(),
    }
}

/// A minimal card for reaching an agent at `url` to fetch its real card:
/// the first transport is preferred (the empty label when none is given),
/// each further one is an additional interface at `url`, and the card
/// declares an authenticated extended card.
pub fn minimal_agent_card(url: String, transports: Option<Vec<String>>) -> (r: AgentCard)
    ensures
        r.url@ == url@,
        r.name@ == ""@,
        r.description@ == ""@,
        r.version@ == ""@,
        r.default_input_modes.deep_view() == Seq::<Seq<char>>::empty(),
        r.default_output_modes.deep_view() == Seq::<Seq<char>>::empty(),
        r.skills@ == Seq::<crate::models::AgentSkill>::empty(),
        r.capabilities == (AgentCapabilities { streaming: None, push_notifications: None, state_transition_history: None }),
        r.preferred_transport matches Some(t) && t@ == (if transport_labels(transports).len() > 0 {
            transport_labels(transports)[0]
        } else {
            ""@
        }),
        r.additional_interfaces matches Some(ifaces) && ifaces@.len() == (if transport_labels(transports).len() > 1 {
            transport_labels(transports).len() - 1
        } else {
            0
        }),
        r.additional_interfaces matches Some(ifaces) && forall|i: int| 0 <= i < ifaces@.len()
            ==> (#[trigger] ifaces@[i]).url@ == url@ && ifaces@[i].transport@ == transport_labels(transports)[i + 1],
        r.supports_authenticated_extended_card == Some(true),
{
    let ts: Vec<String> = match transports {
        Some(v) => v,
        None => Vec::new(),
    };
    let preferred = if ts.len() > 0 { ts[0].clone() } else { owned("") };
    let ifaces = interfaces_at(&url, &ts);
    let no_modes: Vec<String> = Vec::new();
    assert(no_modes.deep_view() =~= Seq::<Seq<char>>::empty());
    let no_modes2: Vec<String> = Vec::new();
    assert(no_modes2.deep_view() =~= Seq::<Seq<char>>::empty());
    AgentCard::new(owned(""), owned(""), url, owned(""), no_modes, no_modes2, AgentCapabilities::new(), Vec::new())
        .with_preferred_transport(preferred)
        .with_additional_interfaces(ifaces)
        .with_supports_authenticated_extended_card(true)
}

/// Whether `c` is the configuration a client with `config` sends with a
/// message: its accepted output modes (none when it has none), blocking
/// unless it polls, no history length, and its first push notification
/// configuration (none when it has none).
pub open spec fn is_send_configuration(config: ClientConfig, c: MessageSendConfiguration) -> bool {
    &&& config.accepted_output_modes@.len() == 0 ==> c.accepted_output_modes is None
    &&& config.accepted_output_modes@.len() > 0 ==> (c.accepted_output_modes matches Some(m)
        && m.deep_view() == config.accepted_output_modes.deep_view())
    &&& c.blocking == Some(!config.polling)
    &&& c.history_length is None
    &&& config.push_notification_configs@.len() == 0 ==> c.push_notification_config is None
    &&& config.push_notification_configs@.len() > 0 ==> (c.push_notification_config matches Some(p)
        && p.deep_view() == config.push_notification_configs@[0].deep_view())
}

/// The configuration a client sends with a message: see
/// `is_send_configuration`.
pub fn message_send_configuration(config: &ClientConfig) -> (r: MessageSendConfiguration)
    ensures
        is_send_configuration(*config, r),
{
    MessageSendConfiguration {
        accepted_output_modes: if config.accepted_output_modes.len() == 0 {
            None
        } else {
            Some(clone_vec(&config.accepted_output_modes))
        },
        blocking: Some(!config.polling),
        history_length: None,
        push_notification_config: if config.push_notification_configs.len() > 0 {
            Some(config.push_notification_configs[0].clone())
        } else {
            None
        },
    }
}

/// The task a client shows for an update that comes without one: the
/// update's task and context, in the given status.
pub open spec fn stand_in_task(t: TaskData, task_id: Seq<char>, context_id: Seq<char>) -> bool {
    &&& t.id == task_id
    &&& t.context_id == context_id
    &&& t.artifacts is None
    &&& t.history is None
    &&& t.metadata is None
    &&& t.kind == "task"@
}

/// What a client yields for what a transport returned: a message as it is,
/// a task with no update, and an update together with a stand-in task for
/// it (in the update's status, or working for an artifact update).
pub fn client_event_from(result: TaskOrMessage) -> (r: ClientEventOrMessage)
    ensures
        result matches TaskOrMessage::Message(m) ==> r matches ClientEventOrMessage::Message(x) && x == m,
        result matches TaskOrMessage::Task(t) ==> r matches ClientEventOrMessage::Event((x, None)) && x == t,
        result matches TaskOrMessage::TaskUpdate(u) ==> r matches ClientEventOrMessage::Event((x, Some(TaskUpdateEvent::Status(y))))
            && y.deep_view() == u.deep_view()
            && stand_in_task(x.deep_view(), u.task_id@, u.context_id@)
            && x.status.deep_view() == u.status.deep_view(),
        result matches TaskOrMessage::TaskArtifactUpdateEvent(u) ==> r matches ClientEventOrMessage::Event((x, Some(TaskUpdateEvent::Artifact(y))))
            && y == u
            && stand_in_task(x.deep_view(), u.task_id@, u.context_id@)
            && x.status.state == TaskState::Working && x.status.message is None && x.status.timestamp is Some,
{
    match result {
        TaskOrMessage::Message(m) => ClientEventOrMessage::Message(m),
        TaskOrMessage::Task(t) => ClientEventOrMessage::Event((t, None)),
        TaskOrMessage::TaskUpdate(u) => {
            let task = Task::new(u.context_id.clone(), u.status.clone()).with_task_id(u.task_id.clone());
            ClientEventOrMessage::Event((task, Some(TaskUpdateEvent::Status(u))))
        },
        TaskOrMessage::TaskArtifactUpdateEvent(u) => {
            let status = TaskStatus::new(TaskState::Working);
            let task = Task::new(u.context_id.clone(), status).with_task_id(u.task_id.clone());
            ClientEventOrMessage::Event((task, Some(TaskUpdateEvent::Artifact(u))))
        },
    }
}

/// How a client sends a message.
#[derive(Clone, Copy, PartialEq, Eq, Debug, Structural)]
pub enum SendAction {
    /// As a streaming request.
    Stream,
    /// As a single request.
    Single,
}

/// The common part of clients: the agent's card, the configuration, the
/// transport, the event consumers and the request middleware.
pub struct BaseClient<T, C, M> {
    card: AgentCard,
    config: ClientConfig,
    transport: T,
    consumers: Vec<C>,
    middleware: Vec<M>,
}

impl<T, C, M> BaseClient<T, C, M> {
    /// The agent's card.
    pub closed spec fn spec_card(&self) -> AgentCard {
        self.card
    }

    /// The client configuration.
    pub closed spec fn spec_config(&self) -> ClientConfig {
        self.config
    }

    /// The transport.
    pub closed spec fn spec_transport(&self) -> T {
        self.transport
    }

    /// The event consumers.
    pub closed spec fn spec_consumers(&self) -> Seq<C> {
        self.consumers@
    }

    /// A client for the agent of `card`.
    pub fn new(card: AgentCard, config: ClientConfig, transport: T, consumers: Vec<C>, middleware: Vec<M>) -> (r: Self)
        ensures
            r.spec_card() == card,
            r.spec_config() == config,
            r.spec_transport() == transport,
            r.spec_consumers() == consumers@,
    {
        BaseClient { card, config, transport, consumers, middleware }
    }

    /// The agent's card.
    pub fn card(&self) -> (r: &AgentCard)
        ensures
            *r == self.spec_card(),
    {
        &self.card
    }

    /// The client configuration.
    pub fn config(&self) -> (r: &ClientConfig)
        ensures
            *r == self.spec_config(),
    {
        &self.config
    }

    /// The transport.
    pub fn transport(&self) -> (r: &T)
        ensures
            *r == self.spec_transport(),
    {
        &self.transport
    }

    /// The event consumers.
    pub fn consumers(&self) -> (r: &Vec<C>)
        ensures
            r@ == self.spec_consumers(),
    {
        &self.consumers
    }

    /// The parameters with which the client sends `request`: see
    /// `message_send_configuration`.
    pub fn message_params(&self, request: Message, request_metadata: Option<Metadata>) -> (r: MessageSendParams)
        ensures
            r.message == request,
            r.metadata == request_metadata,
            r.configuration matches Some(c) && is_send_configuration(self.spec_config(), c),
    {
        MessageSendParams {
            message: request,
            configuration: Some(message_send_configuration(&self.config)),
            metadata: request_metadata,
        }
    }

    /// How the client sends a message: streamed when it streams and
    /// streaming has not failed, else as a single request.
    pub fn send_action(&self, streaming_failed: bool) -> (r: SendAction)
        ensures
            r == (if self.spec_config().streaming && !streaming_failed { SendAction::Stream } else { SendAction::Single }),
    {
        if self.config.streaming && !streaming_failed {
            SendAction::Stream
        } else {
            SendAction::Single
        }
    }

    /// Whether the client streams its messages.
    pub fn streams(&self) -> (r: bool)
        ensures
            r == self.spec_config().streaming,
    {
        self.config.streaming
    }

    /// Resubscription needs streaming on both sides: refused with
    /// "client and/or server do not support resubscription" otherwise.
    pub fn check_resubscribe(&self) -> (r: Result<(), A2AError>)
        ensures
            r is Ok <==> self.spec_config().streaming && self.spec_card().capabilities.streaming == Some(true),
            r matches Err(e) ==> e matches A2AError::UnsupportedOperation(m)
                && m@ == "client and/or server do not support resubscription"@,
    {
        let server_streams = match self.card.capabilities.streaming {
            Some(b) => b,
            None => false,
        };
        if !self.config.streaming || !server_streams {
            return Err(A2AError::unsupported_operation("client and/or server do not support resubscription"));
        }
        Ok(())
    }
}

proof fn lemma_lookup_offer(offers: Seq<(TransportProtocol, Seq<char>)>, p: TransportProtocol)
    ensures
        lookup_offer(offers, p) matches Some(u) ==> offers.contains((p, u)),
        lookup_offer(offers, p) is None <==> forall|i: int| 0 <= i < offers.len() ==> offers[i].0 != p,
    decreases offers.len(),
{
    if offers.len() > 0 {
        let rest = offers.drop_first();
        lemma_lookup_offer(rest, p);
        if offers[0].0 == p {
            assert(offers[0] == (p, offers[0].1));
        } else {
            if let Some(u) = lookup_offer(rest, p) {
                let i = choose|i: int| 0 <= i < rest.len() && rest[i] == (p, u);
                assert(offers[i + 1] == (p, u));
            }
            assert forall|i: int| 0 <= i < offers.len() && (forall|j: int| 0 <= j < rest.len() ==> rest[j].0 != p)
                implies offers[i].0 != p by {
                if i > 0 {
                    assert(offers[i] == rest[i - 1]);
                }
            }
            if exists|i: int| 0 <= i < rest.len() && rest[i].0 == p {
                let i = choose|i: int| 0 <= i < rest.len() && rest[i].0 == p;
                assert(offers[i + 1].0 == p);
            }
        }
    }
}

proof fn lemma_first_supported_offer(offers: Seq<(TransportProtocol, Seq<char>)>, client: Seq<TransportProtocol>)
    ensures
        first_supported_offer(offers, client) matches Some(o) ==> client.contains(o.0) && offers.contains(o),
        first_supported_offer(offers, client) is None <==> forall|i: int| 0 <= i < offers.len() ==> !client.contains(
            #[trigger] offers[i].0,
        ),
    decreases offers.len(),
{
    if offers.len() > 0 {
        let rest = offers.drop_first();
        lemma_first_supported_offer(rest, client);
        if !client.contains(offers[0].0) {
            if let Some(o) = first_supported_offer(rest, client) {
                let i = choose|i: int| 0 <= i < rest.len() && rest[i] == o;
                assert(offers[i + 1] == o);
            }
            assert forall|i: int| 0 <= i < offers.len() && (forall|j: int| 0 <= j < rest.len() ==> !client.contains(#[trigger] rest[j].0))
                implies !client.contains(#[trigger] offers[i].0) by {
                if i > 0 {
                    assert(offers[i] == rest[i - 1]);
                }
            }
            if exists|i: int| 0 <= i < rest.len() && client.contains(#[trigger] rest[i].0) {
                let i = choose|i: int| 0 <= i < rest.len() && client.contains(#[trigger] rest[i].0);
                assert(offers[i + 1] == rest[i]);
            }
        } else {
            assert(offers.contains(offers[0]));
        }
    }
}

proof fn lemma_first_offered_transport(client: Seq<TransportProtocol>, offers: Seq<(TransportProtocol, Seq<char>)>)
    ensures
        first_offered_transport(client, offers) matches Some(o) ==> client.contains(o.0) && offers.contains(o),
        first_offered_transport(client, offers) is None <==> forall|j: int, i: int| 0 <= j < client.len() && 0 <= i < offers.len()
            ==> #[trigger] client[j] != #[trigger] offers[i].0,
    decreases client.len(),
{
    if client.len() > 0 {
        let rest = client.drop_first();
        lemma_first_offered_transport(rest, offers);
        lemma_lookup_offer(offers, client[0]);
        match lookup_offer(offers, client[0]) {
            Some(u) => {
                assert(client.contains(client[0]));
                let i = choose|i: int| 0 <= i < offers.len() && offers[i] == (client[0], u);
                assert(client[0] == offers[i].0);
            },
            None => {
                if let Some(o) = first_offered_transport(rest, offers) {
                    let j = choose|j: int| 0 <= j < rest.len() && rest[j] == o.0;
                    assert(client[j + 1] == o.0);
                }
                assert forall|j: int, i: int| 0 <= j < client.len() && 0 <= i < offers.len()
                    && first_offered_transport(rest, offers) is None
                    implies #[trigger] client[j] != #[trigger] offers[i].0 by {
                    if j > 0 {
                        assert(client[j] == rest[j - 1]);
                    }
                }
                if first_offered_transport(rest, offers) is Some {
                    let o = first_offered_transport(rest, offers)->0;
                    let j = choose|j: int| 0 <= j < rest.len() && rest[j] == o.0;
                    let i = choose|i: int| 0 <= i < offers.len() && offers[i] == o;
                    assert(client[j + 1] == offers[i].0);
                }
            },
        }
    }
}

proof fn lemma_offers_head(base: Seq<(TransportProtocol, Seq<char>)>, ifaces: Seq<(Seq<char>, Seq<char>)>)
    requires
        base.len() > 0,
    ensures
        offers_with_interfaces(base, ifaces).len() > 0,
        offers_with_interfaces(base, ifaces)[0].0 == base[0].0,
    decreases ifaces.len(),
{
    if ifaces.len() > 0 {
        lemma_offers_head(base, ifaces.drop_last());
    }
}

/// A chosen transport is one the client can use and the agent offers, at
/// the URL the agent gives for it; and a transport is chosen exactly when
/// the two sides have one in common.
pub proof fn law_chosen_transport_compatible(config: ClientConfigData, card: AgentCard)
    ensures
        chosen_transport(config, card) matches Some(o) ==> client_transports(config).contains(o.0)
            && server_offers(card).contains(o),
        chosen_transport(config, card) is None <==> forall|j: int, i: int|
            0 <= j < client_transports(config).len() && 0 <= i < server_offers(card).len()
            ==> #[trigger] client_transports(config)[j] != #[trigger] server_offers(card)[i].0,
{
    let c = client_transports(config);
    let s = server_offers(card);
    lemma_first_offered_transport(c, s);
    lemma_first_supported_offer(s, c);
    if !config.use_client_preference {
        if first_supported_offer(s, c) is None {
            assert forall|j: int, i: int| 0 <= j < c.len() && 0 <= i < s.len() implies #[trigger] c[j] != #[trigger] s[i].0 by {
                if c[j] == s[i].0 {
                    assert(c.contains(s[i].0));
                }
            }
        } else {
            let o = first_supported_offer(s, c)->0;
            let j = choose|j: int| 0 <= j < c.len() && c[j] == o.0;
            let i = choose|i: int| 0 <= i < s.len() && s[i] == o;
            assert(c[j] == s[i].0);
        }
    }
}

/// When the agent's preference decides and the client can use the agent's
/// preferred transport, that transport is chosen.
pub proof fn law_server_preference_wins(config: ClientConfigData, card: AgentCard)
    requires
        !config.use_client_preference,
        client_transports(config).contains(preferred_of(card)),
    ensures
        chosen_transport(config, card) matches Some(o) && o.0 == preferred_of(card),
{
    let base = seq![(preferred_of(card), card.url@)];
    match card.additional_interfaces {
        Some(v) => lemma_offers_head(base, v@.map_values(|i: AgentInterface| interface_view(i))),
        None => {},
    }
}

/// When the client's preference decides and the agent offers the client's
/// first transport, that transport is chosen.
pub proof fn law_client_preference_wins(config: ClientConfigData, card: AgentCard)
    requires
        config.use_client_preference,
        lookup_offer(server_offers(card), client_transports(config)[0]) is Some,
    ensures
        chosen_transport(config, card) matches Some(o) && o.0 == client_transports(config)[0],
{
}

} // verus!
