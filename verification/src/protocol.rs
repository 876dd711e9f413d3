//! The protocol negotiation adapter: one inbound sub-protocol identifier and
//! a permanently failing outbound stub.
//!
//! The handler speaks exactly one application protocol on inbound substreams
//! and never opens substreams of its own — dialing back happens over a
//! different connection, driven by the transport layer.

use vstd::prelude::*;

verus! {

/// The identifier of the dial-back sub-protocol, as a sequence of characters.
pub open spec fn spec_dial_back_protocol() -> Seq<char> {
    "/libp2p/autonat/2/dial-back"@
}

/// Why an outbound negotiation attempt failed.
#[derive(Clone, Copy, Debug, PartialEq, Eq, Structural)]
pub enum UpgradeError {
    /// This handler is receive-only; every outbound attempt is denied.
    Denied,
}

/// The protocol identifier the negotiation layer should route inbound
/// stream-open requests by.
pub fn dial_back_protocol() -> (p: &'static str)
    ensures
        p@ == spec_dial_back_protocol(),
{
    "/libp2p/autonat/2/dial-back"
}

/// Whether an inbound negotiation for `protocol` is accepted by this handler.
pub fn accepts_inbound(protocol: &String) -> (b: bool)
    ensures
        b == (protocol@ == spec_dial_back_protocol()),
{
    let own: String = dial_back_protocol().to_owned();
    protocol.eq(&own)
}

/// The outbound negotiation stub: it fails immediately and unconditionally,
/// whatever protocol is asked for.
pub fn negotiate_outbound(_protocol: &String) -> (r: Result<(), UpgradeError>)
    ensures
        r == Err::<(), UpgradeError>(UpgradeError::Denied),
{
    Err(UpgradeError::Denied)
}

} // verus!
