use broadnym::address::AddressCell;
use broadnym::network::Network;
use broadnym::relay::{BroadcastOutcome, RelayAction, RelayEvent, RelayMachine, RelayPhase};
use broadnym::session::ClientSession;

// The full scenario: a client composes and encodes an envelope, the relay
// decodes the identical struct, plans the mainnet broadcast, and logs the
// endpoint's success body verbatim. Nothing goes back to the client.
#[test]
fn end_to_end_mainnet_broadcast() {
    // Relay side comes up and publishes its address.
    let mut cell = AddressCell::new();
    let mut relay = RelayMachine::new();
    let action = relay.step(RelayEvent::IdentityReady { address: "relay.addr".to_string() });
    match action {
        RelayAction::PublishAddress { address } => cell.set_address(address),
        _ => panic!("startup must publish the address"),
    }

    // Client side initializes and composes the send.
    let mut session = ClientSession::new();
    session.begin_initialize();
    session.complete_initialize(true);
    let destination = cell
        .get_address()
        .expect("the relay published its address")
        .clone();
    let plan = session
        .prepare_send(&destination, &"0100beef".to_string(), Network::Mainnet)
        .expect("a ready session with non-empty fields must produce a plan");
    assert_eq!(plan.destination, "relay.addr");

    // The transport delivers the payload bytes to the relay.
    let action = relay.step(RelayEvent::Inbound { payload: plan.payload });
    let broadcast = match action {
        RelayAction::Broadcast { plan } => plan,
        _ => panic!("a well-formed envelope must be forwarded"),
    };
    assert_eq!(broadcast.url, "https://mempool.space/api/tx");
    assert_eq!(broadcast.body, "0100beef");

    // The broadcast endpoint answers 200 with the transaction id.
    let action = relay.step(RelayEvent::BroadcastResult {
        status: 200,
        body: "abcd1234".to_string(),
    });
    let outcome = match action {
        RelayAction::LogOutcome { outcome } => outcome,
        _ => panic!("a broadcast result must only be logged"),
    };
    assert!(matches!(outcome, BroadcastOutcome::Success { .. }));
    let log = outcome.log_line();
    assert!(log.contains("abcd1234"));
    assert_eq!(log, "Success: abcd1234");

    // The loop is still serving, the address is untouched, and no action in
    // the whole exchange addressed the original requester.
    assert_eq!(relay.current_phase(), RelayPhase::Running);
    assert_eq!(cell.get_address().map(String::as_str), Some("relay.addr"));
}
