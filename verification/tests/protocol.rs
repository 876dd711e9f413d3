use dial_back::handler::Handler;
use dial_back::protocol::{accepts_inbound, dial_back_protocol, negotiate_outbound, UpgradeError};

#[test]
fn inbound_protocol_identifier() {
    assert_eq!(dial_back_protocol(), "/libp2p/autonat/2/dial-back");
    let h = Handler::new(100, 2);
    assert_eq!(h.listen_protocol(), "/libp2p/autonat/2/dial-back");
}

#[test]
fn inbound_negotiation_matches_only_the_dial_back_protocol() {
    assert!(accepts_inbound(&String::from("/libp2p/autonat/2/dial-back")));
    assert!(!accepts_inbound(&String::from("/libp2p/autonat/2/dial-request")));
    assert!(!accepts_inbound(&String::from("")));
}

#[test]
fn outbound_negotiation_always_fails() {
    assert_eq!(
        negotiate_outbound(&String::from("/libp2p/autonat/2/dial-back")),
        Err(UpgradeError::Denied)
    );
    assert_eq!(negotiate_outbound(&String::from("/other")), Err(UpgradeError::Denied));
}
