use a2a_rust::client::{
    minimal_agent_card, message_send_configuration, BaseClient, ClientConfig, ClientFactory, SendAction, TransportProducer,
};
use a2a_rust::core_types::{Message, Part, Role, TransportProtocol};
use a2a_rust::error::A2AError;
use a2a_rust::models::{AgentCapabilities, AgentCard, AgentInterface, PushNotificationConfig};
use a2a_rust::transport::{JsonRpcTransport, RestTransport};

fn test_card(name: &str, description: &str) -> AgentCard {
    AgentCard::new(
        name.to_string(),
        description.to_string(),
        "http://localhost:8080".to_string(),
        "1.0.0".to_string(),
        vec![],
        vec![],
        AgentCapabilities::new(),
        vec![],
    )
}

fn chosen(factory: &ClientFactory<(), ()>, card: &AgentCard) -> TransportProtocol {
    match factory.determine_transport(card) {
        Ok((protocol, _url)) => protocol,
        Err(e) => panic!("no transport: {}", e.message()),
    }
}

#[test]
fn test_client_factory_creation() {
    let config = ClientConfig::new();
    let factory = ClientFactory::<(), ()>::with_config(config);
    assert_eq!(factory.consumers().len(), 0);
}

#[test]
fn test_minimal_agent_card() {
    let card = minimal_agent_card(
        "http://localhost:8080".to_string(),
        Some(vec!["jsonrpc".to_string(), "grpc".to_string()]),
    );

    assert_eq!(card.url, "http://localhost:8080");
    assert_eq!(card.preferred_transport, Some("jsonrpc".to_string()));
    assert_eq!(card.additional_interfaces.unwrap().len(), 1);
}

#[test]
fn test_transport_determination() {
    // Server preference (default behavior)
    let config = ClientConfig::new()
        .with_supported_transports(vec![TransportProtocol::Jsonrpc, TransportProtocol::Grpc]);
    let factory = ClientFactory::<(), ()>::with_config(config);

    let mut card = test_card("Test", "Test agent");

    card.preferred_transport = Some("grpc".to_string());
    assert_eq!(chosen(&factory, &card), TransportProtocol::Grpc);

    card.preferred_transport = Some("jsonrpc".to_string());
    assert_eq!(chosen(&factory, &card), TransportProtocol::Jsonrpc);

    // Client preference explicitly disabled: the server wins
    let config = ClientConfig::new()
        .with_supported_transports(vec![TransportProtocol::Jsonrpc, TransportProtocol::Grpc])
        .with_client_preference(false);
    let factory = ClientFactory::<(), ()>::with_config(config);
    card.preferred_transport = Some("grpc".to_string());
    assert_eq!(chosen(&factory, &card), TransportProtocol::Grpc);

    // Client preference enabled
    let config = ClientConfig::new()
        .with_supported_transports(vec![TransportProtocol::Jsonrpc, TransportProtocol::Grpc])
        .with_client_preference(true);
    let factory = ClientFactory::<(), ()>::with_config(config);
    card.preferred_transport = Some("grpc".to_string());
    // The server only offers grpc, so the client uses grpc
    assert_eq!(chosen(&factory, &card), TransportProtocol::Grpc);

    // The server offers both: the client's first choice wins
    card.preferred_transport = Some("jsonrpc".to_string());
    card.additional_interfaces = Some(vec![AgentInterface::new(
        "http://localhost:8080".to_string(),
        "grpc".to_string(),
    )]);
    assert_eq!(chosen(&factory, &card), TransportProtocol::Jsonrpc);
}

#[test]
fn test_jsonrpc_transport_creation() {
    let transport = JsonRpcTransport::<()>::new("http://localhost:8080".to_string(), None);
    assert!(transport.is_ok());
}

#[test]
fn test_jsonrpc_transport_with_card() {
    let card = AgentCard::new(
        "Test".to_string(),
        "Test agent".to_string(),
        "http://localhost:8080".to_string(),
        "1.0.0".to_string(),
        vec!["text/plain".to_string()],
        vec!["text/plain".to_string()],
        AgentCapabilities::new(),
        vec![],
    );
    let transport = JsonRpcTransport::<()>::new("http://localhost:8080".to_string(), Some(card));
    assert!(transport.is_ok());
}

#[test]
fn test_rest_transport_creation() {
    let transport = RestTransport::<()>::new("http://localhost:8080".to_string(), None);
    assert!(transport.is_ok());
}

#[test]
fn test_rest_transport_with_card() {
    let card = AgentCard::new(
        "Test".to_string(),
        "Test agent".to_string(),
        "http://localhost:8080".to_string(),
        "1.0.0".to_string(),
        vec!["text/plain".to_string()],
        vec!["text/plain".to_string()],
        AgentCapabilities::new(),
        vec![],
    );
    let transport = RestTransport::<()>::new("http://localhost:8080".to_string(), Some(card));
    assert!(transport.is_ok());
}

#[test]
fn test_minimal_agent_card_creation() {
    let card = minimal_agent_card(
        "http://localhost:8080".to_string(),
        Some(vec!["jsonrpc".to_string(), "grpc".to_string()]),
    );

    assert_eq!(card.url, "http://localhost:8080");
    assert_eq!(card.preferred_transport, Some("jsonrpc".to_string()));
    assert!(card.additional_interfaces.is_some());
    assert_eq!(card.additional_interfaces.unwrap().len(), 1);
    assert!(card.supports_authenticated_extended_card.unwrap_or(false));
}

#[test]
fn test_transport_determination_with_client_preference() {
    // The card offers JSON-RPC only (its default)
    let card = test_card("Test Agent", "Test agent");

    let config = ClientConfig::new()
        .with_supported_transports(vec![TransportProtocol::Grpc, TransportProtocol::Jsonrpc])
        .with_client_preference(true);
    let factory = ClientFactory::<(), ()>::with_config(config);
    assert_eq!(chosen(&factory, &card), TransportProtocol::Jsonrpc);

    let config = ClientConfig::new()
        .with_supported_transports(vec![TransportProtocol::Grpc])
        .with_client_preference(true);
    let factory = ClientFactory::<(), ()>::with_config(config);
    assert!(factory.determine_transport(&card).is_err());
}

#[test]
fn test_client_factory_configuration() {
    let config = ClientConfig::new()
        .with_streaming(true)
        .with_polling(false)
        .with_supported_transports(vec![TransportProtocol::Jsonrpc])
        .with_client_preference(true)
        .with_accepted_output_modes(vec!["text/plain".to_string()]);

    let factory = ClientFactory::<(), ()>::with_config(config);

    assert_eq!(factory.config().streaming, true);
    assert_eq!(factory.config().polling, false);
    assert_eq!(factory.config().supported_transports.len(), 1);
    assert_eq!(factory.config().supported_transports[0], TransportProtocol::Jsonrpc);
    assert_eq!(factory.config().use_client_preference, true);
    assert_eq!(factory.config().accepted_output_modes.len(), 1);
    assert_eq!(factory.config().accepted_output_modes[0], "text/plain");
}

#[test]
fn test_error_handling_in_factory() {
    let config = ClientConfig::new().with_supported_transports(vec![TransportProtocol::Grpc]);
    let factory = ClientFactory::<(), ()>::with_config(config);

    let card = test_card("Test Agent", "Test agent");

    let result = factory.determine_transport(&card);
    assert!(result.is_err());

    match result {
        Err(A2AError::Internal(_)) => {}
        Err(other) => panic!("Expected Internal error (transport), got: {:?}", other),
        Ok(_) => panic!("Expected an error"),
    }
}

#[test]
fn no_compatible_transport_message() {
    let config = ClientConfig::new().with_supported_transports(vec![TransportProtocol::HttpJson]);
    let factory = ClientFactory::<(), ()>::with_config(config);
    let card = test_card("Test Agent", "Test agent");
    match factory.determine_transport(&card) {
        Err(A2AError::Internal(m)) => assert_eq!(m, "No compatible transports found"),
        other => panic!("unexpected: {:?}", other),
    }
}

#[test]
fn chosen_transport_carries_interface_url() {
    let config = ClientConfig::new()
        .with_supported_transports(vec![TransportProtocol::Grpc])
        .with_client_preference(true);
    let factory = ClientFactory::<(), ()>::with_config(config);
    let mut card = test_card("Test Agent", "Test agent");
    card.additional_interfaces = Some(vec![AgentInterface::new(
        "grpc://localhost:50051".to_string(),
        "grpc".to_string(),
    )]);
    match factory.determine_transport(&card) {
        Ok((p, url)) => {
            assert_eq!(p, TransportProtocol::Grpc);
            assert_eq!(url, "grpc://localhost:50051");
        }
        Err(e) => panic!("unexpected error {:?}", e),
    }
}

#[test]
fn jsonrpc_is_registered_by_default() {
    let factory = ClientFactory::<(), ()>::with_config(ClientConfig::new());
    assert!(matches!(factory.producer(TransportProtocol::Jsonrpc), Ok(TransportProducer::JsonRpc)));
    match factory.producer(TransportProtocol::Grpc) {
        Err(A2AError::Internal(m)) => assert_eq!(m, "No client available for GRPC"),
        _ => panic!("grpc should not be registered"),
    }
}

#[test]
fn jsonrpc_not_registered_when_unsupported() {
    let config = ClientConfig::new().with_supported_transports(vec![TransportProtocol::Grpc]);
    let factory = ClientFactory::<(), ()>::with_config(config);
    assert!(factory.producer(TransportProtocol::Jsonrpc).is_err());
}

#[test]
fn register_replaces_producer() {
    let mut factory = ClientFactory::<(), u32>::with_config(ClientConfig::new());
    factory.register("GRPC".to_string(), 7);
    assert!(matches!(factory.producer(TransportProtocol::Grpc), Ok(TransportProducer::Custom(7))));
    factory.register("GRPC".to_string(), 9);
    assert!(matches!(factory.producer(TransportProtocol::Grpc), Ok(TransportProducer::Custom(9))));
    factory.register("JSONRPC".to_string(), 1);
    assert!(matches!(factory.producer(TransportProtocol::Jsonrpc), Ok(TransportProducer::Custom(1))));
}

#[test]
fn merge_extensions_appends() {
    let config = ClientConfig::new().with_extensions(vec!["a".to_string()]);
    let factory = ClientFactory::<(), ()>::with_config(config);
    let merged = factory.merge_extensions(Some(vec!["b".to_string(), "c".to_string()]));
    assert_eq!(merged.extensions, vec!["a".to_string(), "b".to_string(), "c".to_string()]);
    let unchanged = factory.merge_extensions(None);
    assert_eq!(unchanged.extensions, vec!["a".to_string()]);
}

#[test]
fn prepare_yields_transport_and_config() {
    let factory = ClientFactory::<(), ()>::with_config(ClientConfig::new());
    let card = test_card("Test Agent", "Test agent");
    match factory.prepare(&card, Some(vec!["x".to_string()])) {
        Ok((p, url, producer, config)) => {
            assert_eq!(p, TransportProtocol::Jsonrpc);
            assert_eq!(url, "http://localhost:8080");
            assert!(matches!(producer, TransportProducer::JsonRpc));
            assert_eq!(config.extensions, vec!["x".to_string()]);
        }
        Err(e) => panic!("unexpected error {:?}", e),
    }
}

#[test]
fn default_client_config() {
    let config = ClientConfig::new();
    assert!(config.streaming);
    assert!(!config.polling);
    assert!(config.supported_transports.is_empty());
    assert!(!config.use_client_preference);
    assert!(config.timeout.is_none());
}

#[test]
fn message_configuration_follows_client_config() {
    let config = ClientConfig::new()
        .with_polling(true)
        .with_accepted_output_modes(vec!["text/plain".to_string()])
        .with_push_notification_config(PushNotificationConfig::new("https://example.com/hook".to_string()));
    let c = message_send_configuration(&config);
    assert_eq!(c.blocking, Some(false));
    assert_eq!(c.accepted_output_modes, Some(vec!["text/plain".to_string()]));
    assert_eq!(c.push_notification_config.unwrap().url, "https://example.com/hook");
    assert!(c.history_length.is_none());

    let c = message_send_configuration(&ClientConfig::new());
    assert_eq!(c.blocking, Some(true));
    assert!(c.accepted_output_modes.is_none());
    assert!(c.push_notification_config.is_none());
}

#[test]
fn resubscribe_needs_streaming_on_both_sides() {
    let card = test_card("Test Agent", "Test agent");
    let client = BaseClient::<(), (), ()>::new(card, ClientConfig::new(), (), vec![], vec![]);
    match client.check_resubscribe() {
        Err(A2AError::UnsupportedOperation(m)) => {
            assert_eq!(m, "client and/or server do not support resubscription")
        }
        _ => panic!("expected a refusal"),
    }

    let mut card = test_card("Test Agent", "Test agent");
    card.capabilities = AgentCapabilities::new().with_streaming(true);
    let client = BaseClient::<(), (), ()>::new(card, ClientConfig::new(), (), vec![], vec![]);
    assert!(client.check_resubscribe().is_ok());
    assert!(client.streams());
}

#[test]
fn message_params_carry_the_configured_send_settings() {
    let config = ClientConfig::new()
        .with_accepted_output_modes(vec!["text/plain".to_string(), "application/json".to_string()])
        .with_push_notification_config(PushNotificationConfig::new("https://example.com/first".to_string()))
        .with_push_notification_config(PushNotificationConfig::new("https://example.com/second".to_string()));
    let client = BaseClient::<(), (), ()>::new(test_card("Test Agent", "Test agent"), config, (), vec![], vec![]);
    let message = Message::new(Role::User, vec![Part::text("hi".to_string())]);
    let params = client.message_params(message, None);
    let c = params.configuration.unwrap();
    assert_eq!(c.accepted_output_modes, Some(vec!["text/plain".to_string(), "application/json".to_string()]));
    assert_eq!(c.blocking, Some(true));
    assert!(c.history_length.is_none());
    assert_eq!(c.push_notification_config.unwrap().url, "https://example.com/first");
    assert!(params.metadata.is_none());
}

#[test]
fn streaming_clients_fall_back_to_a_single_send() {
    let card = test_card("Test Agent", "Test agent");
    let client = BaseClient::<(), (), ()>::new(card.clone(), ClientConfig::new(), (), vec![], vec![]);
    assert_eq!(client.send_action(false), SendAction::Stream);
    assert_eq!(client.send_action(true), SendAction::Single);
    let single = BaseClient::<(), (), ()>::new(card, ClientConfig::new().with_streaming(false), (), vec![], vec![]);
    assert_eq!(single.send_action(false), SendAction::Single);
}
