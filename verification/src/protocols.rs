//! The request-response protocols that a node registers.

use std::borrow::Cow;

use vstd::prelude::*;

use crate::network::Network;

verus! {

/// Configuration of a request-response protocol.
pub struct ProtocolConfig<N: Network> {
    /// Name of the protocol on the wire.
    pub name: Cow<'static, str>,
    /// Everything else: sizes, timeout, where incoming requests go.
    pub settings: N::ProtocolSettings,
}

/// The names of the protocols over which the behaviour sends requests of its own.
pub struct ProtocolNames {
    /// Protocol name used to send out block requests.
    pub block_request_protocol_name: String,
    /// Protocol name used to send out state requests.
    pub state_request_protocol_name: String,
}

impl ProtocolNames {
    /// The names under which the given protocols are configured.
    pub fn new<N: Network>(
        block_request_protocol_config: &ProtocolConfig<N>,
        state_request_protocol_config: &ProtocolConfig<N>,
    ) -> (res: Self)
        ensures
            res.block_request_protocol_name@ == block_request_protocol_config.name@,
            res.state_request_protocol_name@ == state_request_protocol_config.name@,
    {
        ProtocolNames {
            block_request_protocol_name: name_to_string(&block_request_protocol_config.name),
            state_request_protocol_name: name_to_string(&state_request_protocol_config.name),
        }
    }
}

/// All the request-response protocols of a node, in the order in which they are registered:
/// `request_response_protocols` first, then those for block requests, for state requests and for
/// light client requests.
pub open spec fn all_protocols<N: Network>(
    block_request_protocol_config: ProtocolConfig<N>,
    state_request_protocol_config: ProtocolConfig<N>,
    light_client_request_protocol_config: ProtocolConfig<N>,
    request_response_protocols: Seq<ProtocolConfig<N>>,
) -> Seq<ProtocolConfig<N>> {
    request_response_protocols + seq![
        block_request_protocol_config,
        state_request_protocol_config,
        light_client_request_protocol_config,
    ]
}

/// The name as a string of its own.
fn name_to_string(name: &Cow<'static, str>) -> (res: String)
    ensures
        res@ == name@,
{
    match name {
        Cow::Borrowed(name) => (*name).to_owned(),
        Cow::Owned(name) => name.clone(),
    }
}

} // verus!
