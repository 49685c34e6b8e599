use command_dispatch::dispatch::{Dispatch, DispatchFailure, InboundMessage, Phase};
use command_dispatch::registry::{CommandDef, Registry};

fn def(name: &str, error_handler: Option<u8>) -> CommandDef<u8, u8> {
    CommandDef {
        name: String::from(name),
        description: String::from("a command"),
        parameters: Vec::new(),
        default_enabled: None,
        handler: 0,
        error_handler,
    }
}

fn registry(defs: Vec<CommandDef<u8, u8>>) -> Registry<u8, u8> {
    Registry::build(defs).unwrap_or_else(|_| panic!("unique names"))
}

const MATCHING_KEY: &str = "INTERACTION.APPLICATION_COMMAND.CREATE";

const START_PAYLOAD: &str = "{\"application_id\":\"100\",\"authorizing_integration_owners\":{},\"id\":\"200\",\"token\":\"tok123\",\"type\":2,\"data\":{\"id\":\"300\",\"name\":\"start\",\"type\":1}}";

fn message(routing_key: &str, payload: &str) -> InboundMessage {
    InboundMessage {
        routing_key: String::from(routing_key),
        payload: payload.as_bytes().to_vec(),
    }
}

#[test]
fn claim_rejects_unmatched_key_and_returns_message() {
    let r = Dispatch::claim(message("MESSAGE.CREATE", "payload"));
    match r {
        Ok(_) => panic!("a foreign routing key must not be claimed"),
        Err(m) => {
            assert_eq!(m.routing_key, "MESSAGE.CREATE");
            assert_eq!(m.payload, b"payload".to_vec());
        }
    }
}

#[test]
fn claim_rejects_shorter_key() {
    let r = Dispatch::claim(message("INTERACTION.APPLICATION", "x"));
    assert!(r.is_err());
}

#[test]
fn claim_accepts_matching_key() {
    let d = Dispatch::claim(message(MATCHING_KEY, "x"))
        .unwrap_or_else(|_| panic!("a matching key must be claimed"));
    assert_eq!(d.phase, Phase::NeedAck);
}

#[test]
fn acknowledgment_comes_before_parsing() {
    let reg = registry(vec![def("start", None)]);
    let mut d = Dispatch::claim(message(MATCHING_KEY, START_PAYLOAD))
        .unwrap_or_else(|_| panic!("matching"));
    assert_eq!(d.phase, Phase::NeedAck);
    d.acked();
    assert_eq!(d.phase, Phase::NeedParse);
    d.parse_and_route(&reg);
    assert_eq!(d.phase, Phase::NeedInvoke);
}

#[test]
fn parse_routes_registered_command() {
    let reg = registry(vec![def("pick", Some(1)), def("start", None)]);
    let mut d = Dispatch::claim(message(MATCHING_KEY, START_PAYLOAD))
        .unwrap_or_else(|_| panic!("matching"));
    d.acked();
    d.parse_and_route(&reg);
    assert_eq!(d.phase, Phase::NeedInvoke);
    assert_eq!(d.command, Some(1));
    assert!(!d.has_error_handler);
    let event = d.event.as_ref().unwrap_or_else(|| panic!("routed"));
    assert_eq!(event.command_name, "start");
    assert_eq!(event.interaction_id, 200);
    assert_eq!(event.token, "tok123");
}

#[test]
fn parse_drops_unknown_command_silently() {
    let reg = registry(vec![def("pick", None)]);
    let mut d = Dispatch::claim(message(MATCHING_KEY, START_PAYLOAD))
        .unwrap_or_else(|_| panic!("matching"));
    d.acked();
    d.parse_and_route(&reg);
    assert_eq!(d.phase, Phase::Done);
    assert_eq!(d.failure, None);
    assert!(d.response.is_none());
}

#[test]
fn parse_drops_other_interaction_kind() {
    let ping = "{\"application_id\":\"100\",\"authorizing_integration_owners\":{},\"id\":\"201\",\"token\":\"tok124\",\"type\":1}";
    let reg = registry(vec![def("start", None)]);
    let mut d =
        Dispatch::claim(message(MATCHING_KEY, ping)).unwrap_or_else(|_| panic!("matching"));
    d.acked();
    d.parse_and_route(&reg);
    assert_eq!(d.phase, Phase::Done);
    assert_eq!(d.failure, None);
}

#[test]
fn parse_drops_autocomplete_kind() {
    let autocomplete = "{\"application_id\":\"100\",\"authorizing_integration_owners\":{},\"id\":\"202\",\"token\":\"tok125\",\"type\":4,\"data\":{\"id\":\"300\",\"name\":\"start\",\"type\":1}}";
    let reg = registry(vec![def("start", None)]);
    let mut d = Dispatch::claim(message(MATCHING_KEY, autocomplete))
        .unwrap_or_else(|_| panic!("matching"));
    d.acked();
    d.parse_and_route(&reg);
    assert_eq!(d.phase, Phase::Done);
    assert_eq!(d.failure, None);
}

#[test]
fn parse_flags_malformed_payload() {
    let reg = registry(vec![def("start", None)]);
    let mut d = Dispatch::claim(message(MATCHING_KEY, "{ not json"))
        .unwrap_or_else(|_| panic!("matching"));
    d.acked();
    d.parse_and_route(&reg);
    assert_eq!(d.phase, Phase::Done);
    assert_eq!(d.failure, Some(DispatchFailure::MalformedPayload));
}

#[test]
fn handler_success_ends_without_response() {
    let reg = registry(vec![def("start", None)]);
    let mut d = Dispatch::claim(message(MATCHING_KEY, START_PAYLOAD))
        .unwrap_or_else(|_| panic!("matching"));
    d.acked();
    d.parse_and_route(&reg);
    d.handler_returned(Ok(()));
    assert_eq!(d.phase, Phase::Done);
    assert!(d.response.is_none());
    assert_eq!(d.failure, None);
}

#[test]
fn handler_error_without_error_handler_sends_one_ephemeral_response() {
    let reg = registry(vec![def("start", None)]);
    let mut d = Dispatch::claim(message(MATCHING_KEY, START_PAYLOAD))
        .unwrap_or_else(|_| panic!("matching"));
    d.acked();
    d.parse_and_route(&reg);
    d.handler_returned(Err(String::from("insufficient balance")));
    assert_eq!(d.phase, Phase::NeedRespond);
    {
        let resp = d.response.as_ref().unwrap_or_else(|| panic!("a response is owed"));
        assert_eq!(resp.content, "insufficient balance");
        assert!(resp.ephemeral);
    }
    d.response_sent(true);
    assert_eq!(d.phase, Phase::Done);
    assert_eq!(d.failure, None);
}

#[test]
fn error_handler_success_suppresses_generic_response() {
    let reg = registry(vec![def("start", Some(1))]);
    let mut d = Dispatch::claim(message(MATCHING_KEY, START_PAYLOAD))
        .unwrap_or_else(|_| panic!("matching"));
    d.acked();
    d.parse_and_route(&reg);
    assert!(d.has_error_handler);
    d.handler_returned(Err(String::from("original failure")));
    assert_eq!(d.phase, Phase::NeedErrorHandler);
    assert_eq!(d.error_text.as_deref(), Some("original failure"));
    d.error_handler_returned(Ok(()));
    assert_eq!(d.phase, Phase::Done);
    assert!(d.response.is_none());
    assert_eq!(d.failure, None);
}

#[test]
fn error_handler_failure_sends_its_own_text() {
    let reg = registry(vec![def("start", Some(1))]);
    let mut d = Dispatch::claim(message(MATCHING_KEY, START_PAYLOAD))
        .unwrap_or_else(|_| panic!("matching"));
    d.acked();
    d.parse_and_route(&reg);
    d.handler_returned(Err(String::from("original failure")));
    d.error_handler_returned(Err(String::from("secondary failure")));
    assert_eq!(d.phase, Phase::NeedRespond);
    let resp = d.response.as_ref().unwrap_or_else(|| panic!("a response is owed"));
    assert_eq!(resp.content, "secondary failure");
    assert!(resp.ephemeral);
}

#[test]
fn response_send_failure_is_recorded() {
    let reg = registry(vec![def("start", None)]);
    let mut d = Dispatch::claim(message(MATCHING_KEY, START_PAYLOAD))
        .unwrap_or_else(|_| panic!("matching"));
    d.acked();
    d.parse_and_route(&reg);
    d.handler_returned(Err(String::from("boom")));
    d.response_sent(false);
    assert_eq!(d.phase, Phase::Done);
    assert_eq!(d.failure, Some(DispatchFailure::ResponseSend));
}
